//! Embedding of trees, strings and byte arrays from files into a syntax tree.
//!
//! The tree is walked once, in source order and depth first. Where a marker
//! such as `#include!("path")` stands, the content of the file takes its
//! place. The library reads no file itself: [`inject`] says which file it
//! needs next, the caller reads it, makes it ready with
//! [`loader::load`] and calls again with one more loaded file.
//!
//! ```text
//! let input = stream::nodes_from_stream(&tokens);
//! let mut loaded = Vec::new();
//! loop {
//!     match inject(&input, &loaded) {
//!         Injected::Need(request) => loaded.push(loader::load(&request, read(&request.path))),
//!         Injected::Done(nodes) => break nodes,
//!         Injected::Failed(diagnostic) => break diagnostic.into_nodes(),
//!     }
//! }
//! ```
//!
//! # The vocabulary
//!
//! | after `#` | stands for |
//! |---|---|
//! | `include`, `include_tt`, `tt` | the tokens of the file |
//! | `include_and_fix_unknown_start_token`, `include_tt_and_fix_unknown_start_token`, `ctt` | the tokens of the file, after its stray backslashes were blanked |
//! | `include_str`, `str` | the text of the file, as a string literal |
//! | `include_arr`, `arr`, `array` | the bytes of the file, as a byte string literal |
//! | a long name with `_and_break` | the same, and the walk ends behind the marker |
//! | `break;`, `BREAK;`, `AS_IS:` | nothing; the walk ends and what follows is left as it is |
//! | `POINT_TRACKER_FILES:` | the declarations of the files that are read from here on |
//!
//! A marker is `#`, its name, a `!` that may be left out, and a group with
//! the path: one literal, `"dir/file"` or `'f'`, or a group of tokens that
//! spell the path, `[dir / "file" . tt]`. Without a path the marker stands
//! for its empty value and no file is read.
//!
//! # What is settled here
//!
//! - A path is taken as it is written. Neither the one literal of a marker
//!   nor the literals inside a group of tokens have their backslashes
//!   unshielded; [`literal::ExprLit::unshield`] is there for a caller who
//!   wants that.
//! - A `#` that no name follows is left alone, and the walk goes on with
//!   the node behind it. Once a name follows, the marker must be complete:
//!   an unknown name, a directive without its closing punctuation and a
//!   marker without its group are errors.
//! - A directive that ends the walk ends it for every enclosing group too.
//! - The first error in source order ends the walk, and its diagnostic is
//!   all that comes out.
//! - A tracker of an enclosing scope stays in charge inside a group: a
//!   `POINT_TRACKER_FILES:` there leaves an empty group, and the files go to
//!   the tracker outside. The numbers of the declarations count up through
//!   the whole tree.

pub mod eq;
pub mod group;
pub mod laws;
pub mod literal;
pub mod loader;
pub mod node;
pub mod null;
pub mod result;
pub mod rules;
pub mod search;
pub mod stream;
pub mod text;
pub mod track;

use crate::loader::{loaded_views, Loaded, LoadedView, Request, RequestView};
use crate::node::{views, Node, SyntaxNode};
use crate::result::{Diagnostic, DiagnosticView};
use crate::search::{scan, search_include_and_replacegroup, start, Flow, SearchGroup, Walk};
use vstd::prelude::*;

verus! {

/// What the walk over a whole tree came to.
#[derive(Debug)]
pub enum Injected {
    /// The walk is over: this is the rewritten tree.
    Done(Vec<SyntaxNode>),
    /// The walk failed: this diagnostic stands for the whole tree.
    Failed(Diagnostic),
    /// The walk needs this file; it is to be loaded and added to the loaded
    /// files, after those that are there.
    Need(Request),
}

/// The mathematical value of an [`Injected`].
pub ghost enum InjectedView {
    Done(Seq<Node>),
    Failed(DiagnosticView),
    Need(RequestView),
}

impl View for Injected {
    type V = InjectedView;

    open spec fn view(&self) -> InjectedView {
        match self {
            Injected::Done(nodes) => InjectedView::Done(views(nodes@)),
            Injected::Failed(d) => InjectedView::Failed(d@),
            Injected::Need(request) => InjectedView::Need(request@),
        }
    }
}

/// What the walk over `nodes` comes to when the files in `loaded` have been
/// loaded, the first for the first marker that names a file, and so on.
pub open spec fn injected(nodes: Seq<Node>, loaded: Seq<LoadedView>) -> InjectedView {
    let (flow, walk) = scan(nodes, loaded, start());
    match flow {
        Flow::Continue | Flow::Break => InjectedView::Done(walk.out),
        Flow::Error(d) => InjectedView::Failed(d),
        Flow::Need(request) => InjectedView::Need(request),
    }
}

/// Rewrites a tree: every marker is replaced by the content of its file.
///
/// The input is left as it is. The result is the rewritten tree, or the one
/// diagnostic of the first error in source order, or the request for the
/// file of the first marker for which `loaded` holds none.
pub fn inject(input: &Vec<SyntaxNode>, loaded: &Vec<Loaded>) -> (r: Injected)
    ensures
        r@ == injected(views(input@), loaded_views(loaded@)),
{
    let (flow, walk) = search_include_and_replacegroup(input, loaded, Walk::new());
    match flow {
        SearchGroup::Continue | SearchGroup::Break => Injected::Done(walk.out),
        SearchGroup::Error(d) => Injected::Failed(d),
        SearchGroup::Need(request) => Injected::Need(request),
    }
}

} // verus!
