//! The policy that turns file-system events in the Wasm directory into
//! registrations and removals of routers.
use vstd::prelude::*;
use crate::naming::{strip_sep, router_id_from_stem, no_sep};
use crate::dispatch::str_eq;

verus! {

/// The kind of a file-system event.
#[derive(PartialEq, Eq, Structural, Debug, Clone, Copy)]
pub enum FsEventKind {
    Create,
    Modify,
    Remove,
    Other,
}

/// What to do with the router of a Wasm file.
pub enum WatchAction {
    /// Register a router for the file under this id.
    Register(String),
    /// Remove the router under this id, then register the file anew.
    Reregister(String),
    /// Remove the router under this id.
    Unregister(String),
    /// Nothing.
    Ignore,
}

/// The file stem used when a path has none that reads as text.
pub open spec fn default_stem() -> Seq<char> {
    "defaultname"@
}

/// Whether a path with this extension is a Wasm component file.
pub fn is_wasm_extension(extension: Option<&str>) -> (r: bool)
    ensures
        r == (extension matches Some(e) && e@ == "wasm"@),
{
    match extension {
        Some(e) => str_eq(e, "wasm"),
        None => false,
    }
}

/// The router id given to a file with this stem, if it has one that reads
/// as text.
pub open spec fn stem_router_id(stem: Option<Seq<char>>) -> Seq<char> {
    match stem {
        Some(s) => strip_sep(s),
        None => strip_sep(default_stem()),
    }
}

/// The router id of a Wasm file: its stem without separators, or the
/// default stem where it has none that reads as text.
pub fn router_id_for_file(stem: Option<&str>) -> (r: String)
    ensures
        r@ == stem_router_id(
            match stem {
                Some(s) => Some(s@),
                None => None,
            },
        ),
        no_sep(r@),
{
    match stem {
        Some(s) => router_id_from_stem(s),
        None => router_id_from_stem("defaultname"),
    }
}

/// The action for an event of kind `kind` on a path with the given
/// extension and stem, where `exists` says whether the file is there now.
///
/// Paths that are not `.wasm` files are ignored. A creation registers; a
/// modification re-registers while the file exists and removes the router
/// once it does not; a removal removes the router.
pub fn watch_action(kind: FsEventKind, extension: Option<&str>, stem: Option<&str>, exists: bool) -> (r:
    WatchAction)
    ensures
        !(extension matches Some(e) && e@ == "wasm"@) || kind == FsEventKind::Other ==> r is Ignore,
        (extension matches Some(e) && e@ == "wasm"@) ==> {
            let id = stem_router_id(
                match stem {
                    Some(s) => Some(s@),
                    None => None,
                },
            );
            &&& kind == FsEventKind::Create ==> (r matches WatchAction::Register(i) && i@ == id)
            &&& kind == FsEventKind::Modify && exists ==> (r matches WatchAction::Reregister(i)
                && i@ == id)
            &&& kind == FsEventKind::Modify && !exists ==> (r matches WatchAction::Unregister(i)
                && i@ == id)
            &&& kind == FsEventKind::Remove ==> (r matches WatchAction::Unregister(i) && i@
                == id)
        },
{
    if !is_wasm_extension(extension) {
        return WatchAction::Ignore;
    }
    match kind {
        FsEventKind::Create => WatchAction::Register(router_id_for_file(stem)),
        FsEventKind::Modify => {
            if exists {
                WatchAction::Reregister(router_id_for_file(stem))
            } else {
                WatchAction::Unregister(router_id_for_file(stem))
            }
        },
        FsEventKind::Remove => WatchAction::Unregister(router_id_for_file(stem)),
        FsEventKind::Other => WatchAction::Ignore,
    }
}

} // verus!
