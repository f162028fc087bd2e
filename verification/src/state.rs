//! The renderer's state and its transitions.

use vstd::prelude::*;
use crate::event::{Command, Key, WindowEvent};
use crate::gpu::{error_kind, surface_error_kind};
use crate::surface::{AcquireError, PhysicalSize, SurfaceConfig};

verus! {

/// By how much the rotation grows with every frame, in thousandths of a
/// radian.
pub const ANGLE_STEP_MILLIRAD: u64 = 1;

/// The quad is drawn as two triangles without an index buffer.
pub const QUAD_VERTICES: u32 = 6;

/// The quad is drawn once per frame.
pub const QUAD_INSTANCES: u32 = 1;

/// The mathematical content of a [`State`].
pub struct StateView {
    /// The last size the window reported that had an area, or the size the
    /// renderer started with.
    pub size: PhysicalSize,
    /// The configuration the surface was last given.
    pub config: SurfaceConfig,
    /// The rotation of the quad about the Z axis, in thousandths of a radian.
    pub angle_millirad: nat,
}

impl StateView {
    /// The surface is always configured with the stored size.
    pub open spec fn consistent(self) -> bool {
        self.config.extent() == self.size
    }

    /// The state of a renderer that starts on a window of `size`.
    pub open spec fn initial(size: PhysicalSize) -> StateView {
        StateView { size, config: SurfaceConfig::initial(size), angle_millirad: 0 }
    }

    /// The state after the window reported `new_size`: a size with an area
    /// replaces the stored size and the extent of the configuration, any
    /// other size changes nothing.
    pub open spec fn resized(self, new_size: PhysicalSize) -> StateView {
        if new_size.has_area() {
            StateView { size: new_size, config: self.config.with_extent(new_size), ..self }
        } else {
            self
        }
    }

    /// The configuration the surface must be given after the window reported
    /// `new_size`, if any.
    pub open spec fn reconfiguration(self, new_size: PhysicalSize) -> Option<SurfaceConfig> {
        if new_size.has_area() {
            Some(self.config.with_extent(new_size))
        } else {
            None
        }
    }

    /// The state one frame later.
    pub open spec fn advanced(self) -> StateView {
        StateView { angle_millirad: self.angle_millirad + ANGLE_STEP_MILLIRAD as nat, ..self }
    }

    /// The state after `frames` frames.
    pub open spec fn advanced_by(self, frames: nat) -> StateView
        decreases frames,
    {
        if frames == 0 {
            self
        } else {
            self.advanced_by((frames - 1) as nat).advanced()
        }
    }

    /// The state after the window reported `event`.
    pub open spec fn after_event(self, event: WindowEvent) -> StateView {
        match event {
            WindowEvent::Resized(new_size) => self.resized(new_size),
            WindowEvent::RedrawRequested => self.advanced(),
            _ => self,
        }
    }

    /// What the frame loop does about `event`.
    pub open spec fn command_for(self, event: WindowEvent) -> Command {
        if event.requests_exit() {
            Command::Exit
        } else {
            match event {
                WindowEvent::Resized(new_size) => Command::configure(self.reconfiguration(new_size)),
                WindowEvent::RedrawRequested => Command::Draw {
                    angle_millirad: self.advanced().angle_millirad as u64,
                },
                _ => Command::Continue,
            }
        }
    }

    /// The state after the next image could not be acquired: a lost or
    /// outdated surface is configured anew with the stored size.
    pub open spec fn after_error(self, error: AcquireError) -> StateView {
        if error.is_recoverable() {
            self.resized(self.size)
        } else {
            self
        }
    }

    /// What the frame loop does when the next image could not be acquired.
    pub open spec fn command_after_error(self, error: AcquireError) -> Command {
        match error {
            AcquireError::Lost | AcquireError::Outdated => Command::configure(
                self.reconfiguration(self.size),
            ),
            AcquireError::OutOfMemory => Command::Exit,
            AcquireError::Timeout => Command::SkipFrame,
        }
    }
}

/// What the renderer remembers between events: the size of the drawable
/// area, the configuration of the surface and the rotation of the quad.
#[derive(Clone, Copy, Debug, PartialEq, Eq)]
pub struct State {
    size: PhysicalSize,
    config: SurfaceConfig,
    angle_millirad: u64,
}

impl View for State {
    type V = StateView;

    closed spec fn view(&self) -> StateView {
        StateView {
            size: self.size,
            config: self.config,
            angle_millirad: self.angle_millirad as nat,
        }
    }
}

impl State {
    #[verifier::type_invariant]
    spec fn config_matches_size(self) -> bool {
        self.config.extent() == self.size
    }

    /// The angle of every state fits the counter that holds it.
    pub proof fn lemma_angle_bounded(&self)
        ensures
            self@.angle_millirad <= u64::MAX,
    {
    }

    /// The state of a renderer that starts on a window of `size`, at rest.
    pub fn new(size: PhysicalSize) -> (state: State)
        ensures
            state@ == StateView::initial(size),
            state@.consistent(),
    {
        State { size, config: SurfaceConfig::for_size(size), angle_millirad: 0 }
    }

    /// The stored size of the drawable area.
    pub fn size(&self) -> (size: PhysicalSize)
        ensures
            size == self@.size,
            self@.consistent(),
    {
        proof {
            use_type_invariant(self);
        }
        self.size
    }

    /// The configuration the surface was last given.
    pub fn config(&self) -> (config: SurfaceConfig)
        ensures
            config == self@.config,
            self@.consistent(),
    {
        proof {
            use_type_invariant(self);
        }
        self.config
    }

    /// The rotation of the quad, in thousandths of a radian.
    pub fn angle_millirad(&self) -> (angle: u64)
        ensures
            angle == self@.angle_millirad,
    {
        self.angle_millirad
    }

    /// Tells whether the rotation can advance by another frame without
    /// leaving the range of its counter.
    pub fn can_advance(&self) -> (possible: bool)
        ensures
            possible == (self@.angle_millirad + ANGLE_STEP_MILLIRAD <= u64::MAX),
    {
        self.angle_millirad <= u64::MAX - ANGLE_STEP_MILLIRAD
    }

    /// Takes note of a new size of the drawable area. A size with an area
    /// becomes the stored size and the extent of the configuration, which is
    /// handed back for the surface to be configured with it. A size without
    /// area is ignored.
    pub fn resize(&mut self, new_size: PhysicalSize) -> (change: Option<SurfaceConfig>)
        ensures
            final(self)@ == old(self)@.resized(new_size),
            change == old(self)@.reconfiguration(new_size),
            new_size.has_area() ==> final(self)@.size == new_size && final(self)@.config.extent()
                == new_size && change == Some(final(self)@.config),
            !new_size.has_area() ==> final(self)@ == old(self)@ && change is None,
            final(self)@.consistent(),
    {
        proof {
            use_type_invariant(&*self);
        }
        if new_size.width > 0 && new_size.height > 0 {
            let config = SurfaceConfig {
                width: new_size.width,
                height: new_size.height,
                desired_maximum_frame_latency: self.config.desired_maximum_frame_latency,
            };
            *self = State { size: new_size, config, angle_millirad: self.angle_millirad };
            Some(config)
        } else {
            None
        }
    }

    /// Gives the renderer the chance to consume an event before the frame
    /// loop reacts to it. The renderer consumes none.
    pub fn input(&mut self, event: &WindowEvent) -> (consumed: bool)
        ensures
            !consumed,
            final(self)@ == old(self)@,
    {
        false
    }

    /// Advances the rotation by one frame and hands back the new angle, for
    /// which the transform is to be uploaded.
    pub fn update(&mut self) -> (angle_millirad: u64)
        requires
            old(self)@.angle_millirad + ANGLE_STEP_MILLIRAD <= u64::MAX,
        ensures
            final(self)@ == old(self)@.advanced(),
            final(self)@.angle_millirad == old(self)@.angle_millirad + ANGLE_STEP_MILLIRAD,
            angle_millirad == final(self)@.angle_millirad,
            final(self)@.consistent(),
    {
        proof {
            use_type_invariant(&*self);
        }
        let angle: u64 = self.angle_millirad + ANGLE_STEP_MILLIRAD;
        *self = State { size: self.size, config: self.config, angle_millirad: angle };
        angle
    }

    /// Reacts to an event of the window: the state changes as the event
    /// demands, and the command says what the caller has to do.
    pub fn handle_event(&mut self, event: &WindowEvent) -> (command: Command)
        requires
            *event is RedrawRequested ==> old(self)@.angle_millirad + ANGLE_STEP_MILLIRAD
                <= u64::MAX,
        ensures
            final(self)@ == old(self)@.after_event(*event),
            command == old(self)@.command_for(*event),
            final(self)@.consistent(),
    {
        proof {
            use_type_invariant(&*self);
        }
        if self.input(event) {
            return Command::Continue;
        }
        match *event {
            WindowEvent::CloseRequested => Command::Exit,
            WindowEvent::KeyboardInput { pressed: true, key: Key::Escape } => Command::Exit,
            WindowEvent::Resized(new_size) => match self.resize(new_size) {
                Some(config) => Command::Configure(config),
                None => Command::Continue,
            },
            WindowEvent::RedrawRequested => {
                let angle_millirad = self.update();
                Command::Draw { angle_millirad }
            },
            _ => Command::Continue,
        }
    }

    /// Decides how the frame loop goes on after the next image could not be
    /// acquired. A lost or outdated surface is configured anew with the
    /// stored size, memory exhaustion ends the loop, and a timeout costs the
    /// frame.
    pub fn recover(&mut self, error: AcquireError) -> (command: Command)
        ensures
            final(self)@ == old(self)@.after_error(error),
            final(self)@ == old(self)@,
            command == old(self)@.command_after_error(error),
            error.is_recoverable() && old(self)@.size.has_area() ==> command
                == Command::Configure(old(self)@.config),
            error.is_recoverable() && !old(self)@.size.has_area() ==> command
                == Command::Continue,
            command == Command::Exit <==> error.is_fatal(),
            final(self)@.consistent(),
    {
        proof {
            use_type_invariant(&*self);
        }
        match error {
            AcquireError::Lost | AcquireError::Outdated => {
                let size = self.size;
                match self.resize(size) {
                    Some(config) => Command::Configure(config),
                    None => Command::Continue,
                }
            },
            AcquireError::OutOfMemory => Command::Exit,
            AcquireError::Timeout => Command::SkipFrame,
        }
    }

    /// Decides how the frame loop goes on after a frame was rendered, or was
    /// not: success needs nothing, an error is handled as [`State::recover`]
    /// says for its kind.
    pub fn after_render(&mut self, result: Result<(), wgpu::SurfaceError>) -> (command: Command)
        ensures
            final(self)@ == old(self)@,
            command == match result {
                Ok(_) => Command::Continue,
                Err(error) => old(self)@.command_after_error(surface_error_kind(error)),
            },
            final(self)@.consistent(),
    {
        proof {
            use_type_invariant(&*self);
        }
        match result {
            Ok(_) => Command::Continue,
            Err(error) => {
                let kind = error_kind(&error);
                self.recover(kind)
            },
        }
    }
}

} // verus!
