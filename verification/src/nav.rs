//! The navigation stack: the ordered history of visited screens that
//! back-navigation walks. A root entry always remains; popping a transient
//! search entry also pops the entry beneath it, so the user never returns to
//! the ephemeral search screen itself.

use vstd::prelude::*;

verus! {

/// Identity of a screen the client can show.
#[derive(Clone, Copy, Debug, PartialEq, Eq, Structural)]
pub enum RouteId {
    Home,
    Search,
    TrackTable,
    SelectedDevice,
    Error,
}

/// The region of a screen that currently has focus.
#[derive(Clone, Copy, Debug, PartialEq, Eq, Structural)]
pub enum ActiveBlock {
    Empty,
    Home,
    Input,
    Library,
    MyPlaylists,
    SearchResultBlock,
    SelectDevice,
    TrackTable,
    HelpMenu,
    Error,
}

/// One entry of the navigation history: which screen, and which of its
/// regions is focused.
#[derive(Clone, Copy, Debug, PartialEq, Eq, Structural)]
pub struct Route {
    pub id: RouteId,
    pub active_block: ActiveBlock,
}

/// The drill-down history of visited screens. Entries are only pushed and
/// popped, never spliced, and the stack is never left empty.
#[derive(Clone, Debug)]
pub struct NavStack {
    stack: Vec<Route>,
}

impl View for NavStack {
    type V = Seq<Route>;

    closed spec fn view(&self) -> Seq<Route> {
        self.stack@
    }
}

impl NavStack {
    /// The stack always keeps its root entry.
    pub open spec fn wf(&self) -> bool {
        self@.len() >= 1
    }

    /// The entry currently on top.
    pub open spec fn spec_top(&self) -> Route {
        self@.last()
    }

    /// A fresh history showing only the root screen.
    pub fn new(root: Route) -> (s: Self)
        ensures
            s@ == seq![root],
            s.wf(),
    {
        let mut stack: Vec<Route> = Vec::new();
        stack.push(root);
        assert(stack@ =~= seq![root]);
        NavStack { stack }
    }

    /// How many screens deep the history is.
    pub fn depth(&self) -> (n: usize)
        ensures
            n == self@.len(),
    {
        self.stack.len()
    }

    /// The entry currently on top.
    pub fn top(&self) -> (r: &Route)
        requires
            self.wf(),
        ensures
            *r == self.spec_top(),
    {
        &self.stack[self.stack.len() - 1]
    }

    /// Drill down: append a screen to the history. Always allowed.
    pub fn push(&mut self, route: Route)
        requires
            old(self).wf(),
        ensures
            final(self)@ == old(self)@.push(route),
            final(self).wf(),
    {
        self.stack.push(route);
    }

    /// Remove the top entry, unless it is the only one: a singleton stack
    /// reports underflow (`None`) and stays as it is, which the caller reads
    /// as "exit the application".
    pub fn pop(&mut self) -> (r: Option<Route>)
        requires
            old(self).wf(),
        ensures
            final(self).wf(),
            old(self)@.len() == 1 ==> r is None && final(self)@ == old(self)@,
            old(self)@.len() > 1 ==> r == Some(old(self).spec_top()) && final(self)@ == old(
                self,
            )@.drop_last(),
    {
        if self.stack.len() <= 1 {
            None
        } else {
            let r = self.stack.pop();
            r
        }
    }

    /// What a back-navigation did to the stack: nothing on underflow; one
    /// entry removed for an ordinary screen; the search entry and the entry
    /// beneath it removed when the top was the transient search screen, the
    /// second removal itself reporting underflow if only the root lay
    /// beneath.
    pub open spec fn back_applied(pre: Seq<Route>, post: Seq<Route>, r: Option<Route>) -> bool {
        if pre.len() == 1 {
            r is None && post == pre
        } else if pre.last().id != RouteId::Search {
            r == Some(pre.last()) && post == pre.drop_last()
        } else if pre.len() == 2 {
            r is None && post == pre.drop_last()
        } else {
            r == Some(pre.drop_last().last()) && post == pre.drop_last().drop_last()
        }
    }

    /// Back-navigation: pop the top entry; if that entry was the transient
    /// search screen, pop once more, so the user returns to the screen that
    /// existed before the search was opened. `None` means there was nothing
    /// left to go back to: the caller exits the application.
    pub fn pop_for_back(&mut self) -> (r: Option<Route>)
        requires
            old(self).wf(),
        ensures
            final(self).wf(),
            Self::back_applied(old(self)@, final(self)@, r),
    {
        let first = self.pop();
        match first {
            Some(route) => {
                if route.id == RouteId::Search {
                    self.pop()
                } else {
                    Some(route)
                }
            },
            None => None,
        }
    }
}

/// The stack is never emptied: every operation keeps at least the root
/// entry, and back-navigation removes at most two entries, never the last.
pub proof fn lemma_stack_never_empty(pre: Seq<Route>, post: Seq<Route>, r: Option<Route>)
    requires
        pre.len() >= 1,
        NavStack::back_applied(pre, post, r),
    ensures
        post.len() >= 1,
        post.len() >= pre.len() - 2,
{
}

/// The skip-one law of back-navigation: popping a search entry removes
/// exactly two entries (or one, reporting underflow, when only the root lay
/// beneath); popping any other entry removes exactly one.
pub proof fn lemma_back_pop_count(pre: Seq<Route>, post: Seq<Route>, r: Option<Route>)
    requires
        pre.len() >= 2,
        NavStack::back_applied(pre, post, r),
    ensures
        pre.last().id == RouteId::Search && pre.len() >= 3 ==> post.len() == pre.len() - 2,
        pre.last().id == RouteId::Search && pre.len() == 2 ==> post.len() == 1 && r is None,
        pre.last().id != RouteId::Search ==> post.len() == pre.len() - 1 && r == Some(pre.last()),
{
}

} // verus!
