//! Choices made once, while the graphics context is set up.

use vstd::prelude::*;
use crate::gpu::{is_srgb, texture_format_is_srgb};

verus! {

/// `index` is the position of the first set flag.
pub open spec fn is_first_set(flags: Seq<bool>, index: int) -> bool {
    &&& 0 <= index < flags.len()
    &&& flags[index]
    &&& forall|j: int| 0 <= j < index ==> !flags[j]
}

/// No flag is set.
pub open spec fn none_set(flags: Seq<bool>) -> bool {
    forall|j: int| 0 <= j < flags.len() ==> !flags[j]
}

/// The position of the first set flag, if any flag is set.
pub open spec fn first_set(flags: Seq<bool>) -> Option<int> {
    if exists|i: int| is_first_set(flags, i) {
        Some(choose|i: int| is_first_set(flags, i))
    } else {
        None
    }
}

/// The position of the preferred entry in a list whose flags mark the
/// entries one would rather have: the first marked one, or the very first
/// entry when none is marked.
pub open spec fn preferred_index(flags: Seq<bool>) -> int {
    match first_set(flags) {
        Some(i) => i,
        None => 0,
    }
}

/// For each format, whether it is an sRGB format.
pub open spec fn srgb_flags(formats: Seq<wgpu::TextureFormat>) -> Seq<bool> {
    formats.map_values(|format: wgpu::TextureFormat| texture_format_is_srgb(format))
}

/// At most one position is that of the first set flag, so [`first_set`]
/// names it whenever one exists.
pub proof fn lemma_first_set_unique(flags: Seq<bool>, index: int)
    requires
        is_first_set(flags, index),
    ensures
        first_set(flags) == Some(index),
{
    let chosen = choose|i: int| is_first_set(flags, i);
    if chosen < index {
        assert(!flags[chosen]);
    } else if index < chosen {
        assert(!flags[index]);
    }
}

/// Without a set flag there is no first one.
pub proof fn lemma_first_set_none(flags: Seq<bool>)
    requires
        none_set(flags),
    ensures
        first_set(flags) is None,
{
    if exists|i: int| is_first_set(flags, i) {
        let chosen = choose|i: int| is_first_set(flags, i);
        assert(!flags[chosen]);
    }
}

/// Finds the first set flag.
fn find_first_set(flags: &Vec<bool>) -> (found: Option<usize>)
    ensures
        found matches Some(i) ==> is_first_set(flags@, i as int),
        found matches Some(i) ==> first_set(flags@) == Some(i as int),
        found is None ==> none_set(flags@),
        found is None ==> first_set(flags@) is None,
{
    let mut i: usize = 0;
    while i < flags.len()
        invariant
            i <= flags.len(),
            forall|j: int| 0 <= j < i ==> !flags@[j],
        decreases flags.len() - i,
    {
        if flags[i] {
            proof {
                lemma_first_set_unique(flags@, i as int);
            }
            return Some(i);
        }
        i += 1;
    }
    proof {
        lemma_first_set_none(flags@);
    }
    None
}

/// Picks the adapter to fall back on when the preferred one is not to be
/// had: the first of the enumerated adapters that can present to the
/// surface. `compatible` holds that answer for each adapter, in the order of
/// enumeration. `None` means that no adapter will do.
pub fn first_compatible_adapter(compatible: &Vec<bool>) -> (choice: Option<usize>)
    ensures
        choice matches Some(i) ==> is_first_set(compatible@, i as int),
        choice matches Some(i) ==> first_set(compatible@) == Some(i as int),
        choice is None ==> none_set(compatible@),
        choice is None ==> first_set(compatible@) is None,
{
    find_first_set(compatible)
}

/// Picks the position of the surface format to render to, given for each
/// supported format whether it is an sRGB format: the first sRGB format, or
/// the first format of all when the surface supports no sRGB format.
pub fn preferred_format_index(srgb: &Vec<bool>) -> (index: usize)
    requires
        srgb@.len() > 0,
    ensures
        index == preferred_index(srgb@),
        index < srgb@.len(),
        is_first_set(srgb@, index as int) || (none_set(srgb@) && index == 0),
{
    match find_first_set(srgb) {
        Some(i) => i,
        None => 0,
    }
}

/// Picks the format to render to among those a surface supports: the first
/// sRGB format, or the first format of all when there is no sRGB format.
pub fn select_surface_format(formats: &Vec<wgpu::TextureFormat>) -> (chosen: wgpu::TextureFormat)
    requires
        formats@.len() > 0,
    ensures
        chosen == formats@[preferred_index(srgb_flags(formats@))],
{
    let mut srgb: Vec<bool> = Vec::new();
    let mut i: usize = 0;
    while i < formats.len()
        invariant
            i <= formats.len(),
            srgb@.len() == i,
            forall|j: int| 0 <= j < i ==> srgb@[j] == texture_format_is_srgb(formats@[j]),
        decreases formats.len() - i,
    {
        srgb.push(is_srgb(&formats[i]));
        i += 1;
    }
    assert(srgb@ =~= srgb_flags(formats@));
    let index = preferred_format_index(&srgb);
    formats[index]
}

} // verus!
