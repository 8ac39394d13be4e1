//! Which of the two renderers runs: chosen by a setting at start and
//! swapped at the user's request.
use crate::text::same_text;
use vstd::prelude::*;

verus! {

/// The two renderers.
#[derive(Debug, Clone, Copy, PartialEq, Eq, Structural)]
pub enum BackendKind {
    Ash,
    Wgpu,
}

/// The Unicode lowercase form of `s`, as `str::to_lowercase` gives it.
pub uninterp spec fn lowercase(s: Seq<char>) -> Seq<char>;

/// Calls `str::to_lowercase`; its result is the name `lowercase` of the
/// text.
#[verifier::external_body]
fn to_lowercase(s: &str) -> (lower: String)
    ensures
        lower@ == lowercase(s@),
{
    s.to_lowercase()
}

/// The renderer a lowercased setting names: `ash` picks the Vulkan
/// renderer, anything else wgpu.
pub open spec fn spec_backend_from_lowercase(lower: Seq<char>) -> BackendKind {
    if lower == "ash"@ {
        BackendKind::Ash
    } else {
        BackendKind::Wgpu
    }
}

/// The renderer a setting asks for: `ash` in any case picks the Vulkan
/// renderer; `wgpu`, any other value or no setting picks wgpu.
pub open spec fn spec_backend_from_setting(setting: Option<Seq<char>>) -> BackendKind {
    match setting {
        Some(value) => spec_backend_from_lowercase(lowercase(value)),
        None => BackendKind::Wgpu,
    }
}

/// The renderer that the lowercased setting `lower` names.
pub fn backend_from_lowercase(lower: &str) -> (kind: BackendKind)
    ensures
        kind == spec_backend_from_lowercase(lower@),
{
    let ash = "ash";
    proof {
        reveal_strlit("ash");
    }
    if same_text(lower, ash) {
        BackendKind::Ash
    } else {
        BackendKind::Wgpu
    }
}

/// The renderer the setting `setting` asks for, `None` where it is unset.
pub fn backend_from_setting(setting: Option<String>) -> (kind: BackendKind)
    ensures
        kind == spec_backend_from_setting(
            match setting {
                Some(value) => Some(value@),
                None => None,
            },
        ),
{
    match setting {
        Some(value) => {
            let lower = to_lowercase(value.as_str());
            backend_from_lowercase(lower.as_str())
        },
        None => BackendKind::Wgpu,
    }
}

/// The renderer other than `kind`.
pub open spec fn other(kind: BackendKind) -> BackendKind {
    match kind {
        BackendKind::Ash => BackendKind::Wgpu,
        BackendKind::Wgpu => BackendKind::Ash,
    }
}

/// The renderer after a switch: the other one.
pub fn switched(kind: BackendKind) -> (next: BackendKind)
    ensures
        next == other(kind),
{
    match kind {
        BackendKind::Ash => BackendKind::Wgpu,
        BackendKind::Wgpu => BackendKind::Ash,
    }
}

/// The name a renderer is announced by.
pub fn backend_label(kind: BackendKind) -> (label: &'static str)
    ensures
        label@ == (if kind == BackendKind::Ash {
            "Ash"@
        } else {
            "Wgpu"@
        }),
{
    match kind {
        BackendKind::Ash => "Ash",
        BackendKind::Wgpu => "Wgpu",
    }
}

/// A switch always changes the renderer, and switching twice runs the
/// renderer that ran before.
pub proof fn lemma_switch_twice(kind: BackendKind)
    ensures
        other(kind) != kind,
        other(other(kind)) == kind,
{
}

} // verus!
