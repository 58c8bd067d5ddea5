use vstd::prelude::*;

use crate::deep_link::{deep_link_fields, deep_link_params, room_of, text_param_of, url_query_of};
use crate::launch::{kind_of, launch_kind, LaunchKind};

verus! {

/// The launch context handed to the rest of the application: the working
/// directory, and at most one of a file to open or a room to join (with its
/// optional inline text).
#[derive(Clone, Debug)]
pub struct Args {
    pub cwd: Option<String>,
    pub file: Option<String>,
    pub room: Option<String>,
    pub text: Option<String>,
}

/// The mathematical value of an [`Args`].
pub struct LaunchContext {
    pub cwd: Option<Seq<char>>,
    pub file: Option<Seq<char>>,
    pub room: Option<Seq<char>>,
    pub text: Option<Seq<char>>,
}

impl View for Args {
    type V = LaunchContext;

    open spec fn view(&self) -> LaunchContext {
        LaunchContext {
            cwd: self.cwd.deep_view(),
            file: self.file.deep_view(),
            room: self.room.deep_view(),
            text: self.text.deep_view(),
        }
    }
}

/// The context that `source` resolves to, given the working directory `cwd`
/// and `canonical`, what canonicalizing `source` as a path gave. Parts that
/// cannot be read are absent; nothing fails.
pub open spec fn resolved(
    source: Seq<char>,
    cwd: Option<Seq<char>>,
    canonical: Option<Seq<char>>,
) -> LaunchContext {
    match kind_of(source) {
        LaunchKind::DeepLink => match url_query_of(source) {
            Some(pairs) => LaunchContext {
                cwd,
                file: None,
                room: room_of(pairs),
                text: text_param_of(pairs),
            },
            None => LaunchContext { cwd, file: None, room: None, text: None },
        },
        LaunchKind::File => LaunchContext { cwd, file: canonical, room: None, text: None },
        LaunchKind::Empty => LaunchContext { cwd, file: None, room: None, text: None },
    }
}

/// Resolves the launch argument `source` into a launch context.
///
/// `cwd` is the process's working directory, where it could be read as text,
/// and `canonical` is the canonical absolute form of `source` read as a path,
/// where canonicalization succeeded; it is used only when `source` is read as
/// a file (see [`launch_kind`]).
pub fn create_args(source: String, cwd: Option<String>, canonical: Option<String>) -> (r: Args)
    ensures
        r@ == resolved(source@, cwd.deep_view(), canonical.deep_view()),
        r.cwd == cwd,
        r.file is Some ==> r.room is None && r.text is None,
{
    let mut file: Option<String> = None;
    let mut room: Option<String> = None;
    let mut text: Option<String> = None;
    match launch_kind(source.as_str()) {
        LaunchKind::DeepLink => {
            if let Ok(pairs) = deep_link_params(source.as_str()) {
                let fields = deep_link_fields(&pairs);
                room = fields.0;
                text = fields.1;
            }
        },
        LaunchKind::File => {
            file = canonical;
        },
        LaunchKind::Empty => {},
    }
    Args { cwd, file, room, text }
}

/// File and room are never both present, and inline text never comes with a
/// file: the launch modes exclude each other.
pub proof fn lemma_launch_modes_exclusive(
    source: Seq<char>,
    cwd: Option<Seq<char>>,
    canonical: Option<Seq<char>>,
)
    ensures
        resolved(source, cwd, canonical).file is Some ==> resolved(source, cwd, canonical).room is None,
        resolved(source, cwd, canonical).file is Some ==> resolved(source, cwd, canonical).text is None,
        resolved(source, cwd, canonical).text is Some ==> kind_of(source) == LaunchKind::DeepLink,
        resolved(source, cwd, canonical).room is Some ==> kind_of(source) == LaunchKind::DeepLink,
{
}

/// Resolving the same argument twice, with the same working directory and the
/// same answer from the filesystem, gives the same context both times, and
/// that context keeps the working directory it was given.
pub proof fn lemma_resolution_deterministic(
    source: Seq<char>,
    cwd: Option<Seq<char>>,
    canonical: Option<Seq<char>>,
    first: Args,
    second: Args,
)
    requires
        first@ == resolved(source, cwd, canonical),
        second@ == resolved(source, cwd, canonical),
    ensures
        first@ == second@,
        first.cwd.deep_view() == cwd,
{
}

} // verus!
