//! Style synthesis for Material-Design-like UI components.
//!
//! The crate turns a component's declared appearance parameters (variant,
//! palette, dimensions, state flags) into a deterministic, instance-scoped
//! CSS stylesheet text.  It covers buttons, text fields and icon glyphs,
//! together with the two leaf utilities they share: color derivation
//! (shade / tint / fade / lightness) and unit-aware length arithmetic.

use vstd::prelude::*;
use vstd::string::StringExecFns;

pub mod buttons;
pub mod color;
pub mod icons;
pub mod input_text;
pub mod length;
pub mod numtext;

verus! {

/// Icon glyph style family, selecting the glyph font class.
#[derive(Debug, Clone, PartialEq, Eq, Structural)]
pub enum GIconStyle {
    Outlined,
    Rounded,
    Sharp,
}

impl Default for GIconStyle {
    fn default() -> (r: Self)
        ensures
            r == GIconStyle::Outlined,
    {
        GIconStyle::Outlined
    }
}

/// Text-field visual variant.
#[derive(Debug, Clone, PartialEq, Eq, Structural)]
pub enum GInputStyle {
    Outlined,
    Filled,
}

impl Default for GInputStyle {
    fn default() -> (r: Self)
        ensures
            r == GInputStyle::Outlined,
    {
        GInputStyle::Outlined
    }
}

/// Button visual variant.
#[derive(Debug, Clone, PartialEq, Eq, Structural)]
pub enum GButtonStyle {
    Elevated,
    Filled,
    Outlined,
    Text,
}

impl Default for GButtonStyle {
    fn default() -> (r: Self)
        ensures
            r == GButtonStyle::Filled,
    {
        GButtonStyle::Filled
    }
}

/// The wrapper id scoping an instance's rules: `g_init_` then the id.
pub open spec fn spec_g_init_id(id: Seq<char>) -> Seq<char> {
    "g_init_"@ + id
}

/// The container id a text field uses: `g_container_` then the id.
pub open spec fn spec_g_container_id(id: Seq<char>) -> Seq<char> {
    "g_container_"@ + id
}

/// Builds the wrapper id for an instance.
pub fn g_init_id(id: &str) -> (r: String)
    ensures
        r@ == spec_g_init_id(id@),
{
    let mut out = String::new();
    out.append("g_init_");
    out.append(id);
    proof {
        assert(out@ =~= spec_g_init_id(id@));
    }
    out
}

/// Builds the container id for an instance.
pub fn g_container_id(id: &str) -> (r: String)
    ensures
        r@ == spec_g_container_id(id@),
{
    let mut out = String::new();
    out.append("g_container_");
    out.append(id);
    proof {
        assert(out@ =~= spec_g_container_id(id@));
    }
    out
}

} // verus!
