//! The order in which a host performs what a connection asks for.
//!
//! A step of a connection can ask for several things, and performing one of
//! them can be a step again that asks for more. An [`Agenda`] keeps track of
//! what is left: what a later step asks for comes before the rest, a failure
//! drops the rest, and the first failure is what the whole comes to.

use crate::action::{ActionView, HostAction};
use crate::error::{ConnectionError, ConnectionResult};
use vstd::prelude::*;

verus! {

/// What is left to do after a step, and what the step comes to.
pub struct Agenda<T> {
    /// What is left to do, last things first
    pub todo: Vec<HostAction>,
    /// What the step comes to, as far as that is known
    pub result: ConnectionResult<T>,
}

/// What an [`Agenda`] amounts to.
pub struct AgendaView<T> {
    /// What is left to do, first things first
    pub todo: Seq<ActionView>,
    /// What the step comes to, as far as that is known
    pub result: ConnectionResult<T>,
}

/// What a list of actions asks for.
pub open spec fn asked_for(actions: Seq<HostAction>) -> Seq<ActionView> {
    actions.map_values(|action: HostAction| action@)
}

impl<T> View for Agenda<T> {
    type V = AgendaView<T>;

    open spec fn view(&self) -> AgendaView<T> {
        AgendaView { todo: asked_for(self.todo@.reverse()), result: self.result }
    }
}

impl<T> AgendaView<T> {
    /// The agenda once an action has been performed, or has failed, and asked
    /// for more. Even what failed gets what it asked for, but nothing that
    /// waited before it.
    pub open spec fn absorbing(self, asked: Seq<ActionView>, r: ConnectionResult<()>) -> Self {
        match r {
            Ok(_) => AgendaView { todo: asked + self.todo, result: self.result },
            Err(error) => AgendaView {
                todo: asked,
                result: if self.result is Err {
                    self.result
                } else {
                    Err(error)
                },
            },
        }
    }
}

impl<T> Agenda<T> {
    /// A step has come to `result` and asked for some things.
    pub fn new(asked: Vec<HostAction>, result: ConnectionResult<T>) -> (agenda: Self)
        ensures
            agenda@ == (AgendaView { todo: asked_for(asked@), result }),
    {
        let mut agenda = Agenda { todo: Vec::new(), result };
        agenda.put_first(asked);
        assert(agenda@.todo =~= asked_for(asked@));
        agenda
    }

    /// Put some things before the rest.
    fn put_first(&mut self, asked: Vec<HostAction>)
        ensures
            final(self)@ == (AgendaView {
                todo: asked_for(asked@) + old(self)@.todo,
                ..old(self)@
            }),
    {
        let ghost all = asked@;
        let mut rest = asked;
        assert(self.todo@ =~= old(self).todo@ + all.skip(all.len() as int).reverse());
        while rest.len() > 0
            invariant
                rest@.len() <= all.len(),
                rest@ == all.take(rest@.len() as int),
                self.todo@ == old(self).todo@ + all.skip(rest@.len() as int).reverse(),
                self.result == old(self).result,
            decreases rest@.len(),
        {
            let ghost before = rest@;
            match rest.pop() {
                Some(action) => {
                    assert(action == all[before.len() - 1]);
                    self.todo.push(action);
                    assert(rest@ =~= all.take(rest@.len() as int));
                    assert(all.skip(rest@.len() as int) =~= seq![action] + all.skip(
                        before.len() as int,
                    ));
                    assert(self.todo@ =~= old(self).todo@ + all.skip(
                        rest@.len() as int,
                    ).reverse());
                },
                None => {},
            }
        }
        assert(all.skip(0) =~= all);
        assert(self.todo@.reverse() =~= all + old(self).todo@.reverse());
        assert(self@.todo =~= asked_for(all) + old(self)@.todo);
    }

    /// Take the first thing that is left to do.
    pub fn next_action(&mut self) -> (next: Option<HostAction>)
        ensures
            match next {
                Some(action) => {
                    &&& old(self)@.todo.len() > 0
                    &&& action@ == old(self)@.todo[0]
                    &&& final(self)@ == (AgendaView {
                        todo: old(self)@.todo.drop_first(),
                        ..old(self)@
                    })
                },
                None => old(self)@.todo.len() == 0 && final(self)@ == old(self)@,
            },
    {
        let next = self.todo.pop();
        proof {
            if old(self).todo@.len() > 0 {
                assert(self@.todo =~= old(self)@.todo.drop_first());
            } else {
                assert(self@.todo =~= old(self)@.todo);
            }
        }
        next
    }

    /// An action has been performed, or has failed, and asked for more.
    pub fn absorb(&mut self, asked: Vec<HostAction>, r: ConnectionResult<()>)
        ensures
            final(self)@ == old(self)@.absorbing(asked_for(asked@), r),
    {
        match r {
            Ok(_) => {},
            Err(error) => {
                self.todo.clear();
                if self.result.is_ok() {
                    self.result = Err(error);
                }
            },
        }
        let ghost waiting = self@.todo;
        self.put_first(asked);
        assert(r is Err ==> waiting =~= Seq::empty());
        assert(self@.todo =~= old(self)@.absorbing(asked_for(asked@), r).todo);
    }

    /// What the step has come to, once nothing is left to do.
    pub fn finish(self) -> (result: ConnectionResult<T>)
        ensures
            result == self.result,
    {
        self.result
    }
}

/// What a later step asks for is done before anything that waited already, in
/// the order in which it asked.
pub proof fn later_requests_come_first<T>(
    agenda: AgendaView<T>,
    asked: Seq<ActionView>,
    r: ConnectionResult<()>,
    i: int,
)
    requires
        0 <= i < asked.len(),
    ensures
        agenda.absorbing(asked, r).todo[i] == asked[i],
        r is Ok ==> agenda.absorbing(asked, r).todo.skip(asked.len() as int) == agenda.todo,
{
    if r is Ok {
        assert(agenda.absorbing(asked, r).todo.skip(asked.len() as int) =~= agenda.todo);
    }
}

/// A failure drops whatever waited, is never forgotten, and is not replaced by
/// a later one.
pub proof fn first_failure_is_reported<T>(
    agenda: AgendaView<T>,
    first: ConnectionError,
    asked: Seq<ActionView>,
    r: ConnectionResult<()>,
)
    requires
        agenda.result is Ok,
    ensures
        ({
            let failed = agenda.absorbing(Seq::empty(), Err(first));
            &&& failed.todo.len() == 0
            &&& failed.result == Err::<T, _>(first)
            &&& failed.absorbing(asked, r).result == Err::<T, _>(first)
        }),
{
}

/// As long as everything succeeds, what the step comes to stays what it was.
pub proof fn success_changes_no_result<T>(agenda: AgendaView<T>, asked: Seq<ActionView>)
    ensures
        agenda.absorbing(asked, Ok(())).result == agenda.result,
        agenda.absorbing(asked, Ok(())).todo == asked + agenda.todo,
{
}

/// What failed still gets what it asked for, and nothing that waited before
/// it.
pub proof fn failures_drop_what_waited<T>(
    agenda: AgendaView<T>,
    asked: Seq<ActionView>,
    error: ConnectionError,
)
    ensures
        agenda.absorbing(asked, Err(error)).todo == asked,
        agenda.absorbing(asked, Err(error)).result is Err,
        agenda.result is Err ==> agenda.absorbing(asked, Err(error)).result == agenda.result,
{
}

} // verus!
