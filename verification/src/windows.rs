//! Decision rules of the window management commands.
//!
//! The hosting framework owns the actual windows; it tells these functions
//! whether a window with the requested id already exists and then carries
//! out the plan they return.  Creating a window whose id already exists
//! focuses the existing one instead of duplicating it; closing an unknown
//! id fails with a message that names the id; the optional window flags
//! fall back to fixed defaults.

use vstd::prelude::*;

verus! {

/// The boolean window flags of a creation request, with every optional
/// flag resolved to its default.
#[derive(Clone, Copy, Debug, PartialEq, Eq, Structural)]
pub struct WindowFlags {
    pub resizable: bool,
    pub maximizable: bool,
    pub transparent: bool,
    pub decorations: bool,
    pub focused: bool,
}

/// An optional flag means its value; an omitted one means the default.
pub open spec fn flag_or(opt: Option<bool>, default_value: bool) -> bool {
    match opt {
        Some(b) => b,
        None => default_value,
    }
}

/// The flags a creation request resolves to: `resizable` and `maximizable`
/// default to off, `transparent`, `decorations` and `focused` to on.
pub open spec fn resolved_flags(
    resizable: Option<bool>,
    maximizable: Option<bool>,
    transparent: Option<bool>,
    decorations: Option<bool>,
    focused: Option<bool>,
) -> WindowFlags {
    WindowFlags {
        resizable: flag_or(resizable, false),
        maximizable: flag_or(maximizable, false),
        transparent: flag_or(transparent, true),
        decorations: flag_or(decorations, true),
        focused: flag_or(focused, true),
    }
}

/// Resolve the optional flags of a creation request to concrete values.
pub fn resolve_flags(
    resizable: Option<bool>,
    maximizable: Option<bool>,
    transparent: Option<bool>,
    decorations: Option<bool>,
    focused: Option<bool>,
) -> (f: WindowFlags)
    ensures
        f == (resolved_flags(resizable, maximizable, transparent, decorations, focused)),
{
    WindowFlags {
        resizable: resizable.unwrap_or(false),
        maximizable: maximizable.unwrap_or(false),
        transparent: transparent.unwrap_or(true),
        decorations: decorations.unwrap_or(true),
        focused: focused.unwrap_or(true),
    }
}

/// What the framework should do with a creation request.
#[derive(Clone, Copy, Debug, PartialEq, Eq, Structural)]
pub enum CreatePlan {
    /// A window with the requested id already exists: bring it to the
    /// front instead of creating a duplicate.
    FocusExisting,
    /// No window has the requested id: build a new one with these flags.
    CreateNew(WindowFlags),
}

/// Decide a creation request.  When a window with the requested id already
/// exists the plan is to focus it; otherwise it is to build a new window
/// with the resolved flags.
pub fn plan_create_window(
    window_exists: bool,
    resizable: Option<bool>,
    maximizable: Option<bool>,
    transparent: Option<bool>,
    decorations: Option<bool>,
    focused: Option<bool>,
) -> (p: CreatePlan)
    ensures
        window_exists ==> p == CreatePlan::FocusExisting,
        !window_exists ==> p == (CreatePlan::CreateNew(
            resolved_flags(resizable, maximizable, transparent, decorations, focused),
        )),
{
    if window_exists {
        CreatePlan::FocusExisting
    } else {
        CreatePlan::CreateNew(
            resolve_flags(resizable, maximizable, transparent, decorations, focused),
        )
    }
}

/// The text of the error that closing an unknown window id reports: it
/// names the id between quotes.
pub open spec fn not_found_text(id: Seq<char>) -> Seq<char> {
    "Window with ID '"@ + id + "' not found"@
}

/// Relies on String::push_str: appends the given string slice onto the end
/// of the string.
#[verifier::external_body]
fn append_str(s: &mut String, tail: &str)
    ensures
        final(s)@ == old(s)@ + tail@,
{
    s.push_str(tail);
}

/// Decide a close request.  Closing succeeds exactly when a window with
/// the requested id exists; otherwise the request fails with a message
/// that names the id.
pub fn close_window_outcome(window_exists: bool, id: &str) -> (r: Result<(), String>)
    ensures
        r is Ok <==> window_exists,
        r is Err ==> (r->Err_0)@ == not_found_text(id@),
{
    if window_exists {
        Ok(())
    } else {
        let mut message = "Window with ID '".to_owned();
        append_str(&mut message, id);
        append_str(&mut message, "' not found");
        proof {
            assert(message@ =~= not_found_text(id@));
        }
        Err(message)
    }
}

/// Law: the not-found message contains the offending id verbatim, starting
/// right after the opening quote of the fixed prefix.
pub proof fn lemma_not_found_text_contains_id(id: Seq<char>)
    ensures
        not_found_text(id).subrange(16, 16 + id.len() as int) == id,
{
    reveal_strlit("Window with ID '");
    reveal_strlit("' not found");
    assert(not_found_text(id).subrange(16, 16 + id.len() as int) =~= id);
}

} // verus!
