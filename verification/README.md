# lightway

The decision core of the Lightway tunnel, written in Verus: every function
states in its contract what it returns and what it changes, and Verus proves
it.

- `src/` is the library. A `Connection` holds everything that the protocol
  decides on. Each step takes what a session, a socket or an application
  reported, and answers with a new state and an ordered list of actions; the
  contract of a step is an equation between the state before and the state
  after. `route_manager` and `dns_manager` do the same for the routing table
  and the resolver of a host. `metrics` says what a host counts next to which
  step. What holds of several steps together is stated and proved next to
  them, and in `laws`.
- `app/` owns what talks to the outside. It performs the actions and feeds
  their outcomes back.
- `tests/` runs the library.

## Performing actions

An `Agenda` keeps the order. A list of actions is performed from its front.
Where an action has an outcome, the method named in its description takes it,
and what that method asks for comes before the rest of the list. When a
required action fails, the rest of the list is dropped and the error reported.
