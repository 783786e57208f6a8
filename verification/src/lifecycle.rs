//! What the two threads of the shell do to the children, in every order in which their
//! steps can fall: no child is stopped twice, and none is left behind.

use vstd::prelude::*;

use crate::boot::{
    boot_next, exit_next, failure, on, port_taken, BootEventView, BootPoint, BootView, ExitEvent,
    ExitPoint,
};

verus! {

/// Who has a child.
pub enum Holder {
    /// It is not running.
    Nobody,
    /// The thread that boots the stack.
    Boot,
    /// It is in its shared place.
    Shared,
    /// The thread that ends the stack.
    Exit,
}

/// A child: how often it was started and stopped, and who has it.
pub struct Child {
    pub starts: nat,
    pub stops: nat,
    pub holder: Holder,
}

impl Child {
    pub open spec fn started(self) -> Child {
        Child { starts: self.starts + 1, holder: Holder::Boot, ..self }
    }

    pub open spec fn stopped(self) -> Child {
        Child { stops: self.stops + 1, holder: Holder::Nobody, ..self }
    }

    pub open spec fn held_by(self, holder: Holder) -> Child {
        Child { holder, ..self }
    }

    /// The child after a thread has taken it out of its place, if it was there.
    pub open spec fn taken_by(self, holder: Holder) -> Child {
        if self.holder is Shared {
            self.held_by(holder)
        } else {
            self
        }
    }

    pub open spec fn running(self) -> bool {
        self.starts > self.stops
    }
}

/// What the two threads share.
pub struct World {
    /// Whether the user has closed the shell.
    pub abort: bool,
    /// Whether the user had not, when the backend was put into its place.
    pub clear_at_store: bool,
    pub mariadb: Child,
    pub backend: Child,
}

/// The two threads, and what they share.
pub struct System {
    pub world: World,
    pub boot: BootView,
    pub exit: ExitPoint,
}

/// A step of one of the two threads, by what came of it.
pub enum Move {
    Boot(BootEventView),
    Exit(ExitEvent),
}

/// The system before the first step.
pub open spec fn fresh(port: u16) -> System {
    let child = Child { starts: 0, stops: 0, holder: Holder::Nobody };
    System {
        world: World { abort: false, clear_at_store: false, mariadb: child, backend: child },
        boot: on(port, BootPoint::CheckPort),
        exit: ExitPoint::SetAbort,
    }
}

/// Whether `event` can come of what the booting thread does at a point. A wait that ends
/// well has looked, since the backend was put into its place, and seen that the user had
/// not closed the shell; nobody takes that back, so it was so at the start of the wait.
pub open spec fn boot_can(world: World, at: BootPoint, event: BootEventView) -> bool {
    match at {
        BootPoint::CheckPort => event is PortOpen,
        BootPoint::StartMariadb | BootPoint::StartBackend => event is Started
            || event is NotStarted,
        BootPoint::AbortAfterMariadb | BootPoint::AbortAfterBackend
        | BootPoint::AbortAfterWait => event == BootEventView::Aborted(world.abort),
        BootPoint::StopNewMariadb | BootPoint::StoreMariadb | BootPoint::StopMariadbOnAbort
        | BootPoint::TerminateNewBackend | BootPoint::StoreBackend | BootPoint::TerminateBackend
        | BootPoint::StopMariadb => event is Done,
        BootPoint::TakeMariadbOnAbort | BootPoint::TakeMariadb => event == BootEventView::Taken(
            world.mariadb.holder is Shared,
        ),
        BootPoint::TakeBackend => event == BootEventView::Taken(world.backend.holder is Shared),
        BootPoint::AwaitHealth => (event is Healthy && world.clear_at_store) || event is Unhealthy,
        BootPoint::Finished => false,
    }
}

/// What the booting thread does to the world at a point.
pub open spec fn boot_effect(world: World, at: BootPoint, event: BootEventView) -> World {
    match at {
        BootPoint::StartMariadb => if event is Started {
            World { mariadb: world.mariadb.started(), ..world }
        } else {
            world
        },
        BootPoint::StartBackend => if event is Started {
            World { backend: world.backend.started(), ..world }
        } else {
            world
        },
        BootPoint::StopNewMariadb | BootPoint::StopMariadbOnAbort
        | BootPoint::StopMariadb => World { mariadb: world.mariadb.stopped(), ..world },
        BootPoint::TerminateNewBackend | BootPoint::TerminateBackend => World {
            backend: world.backend.stopped(),
            ..world
        },
        BootPoint::StoreMariadb => World {
            mariadb: world.mariadb.held_by(Holder::Shared),
            ..world
        },
        BootPoint::StoreBackend => World {
            backend: world.backend.held_by(Holder::Shared),
            clear_at_store: !world.abort,
            ..world
        },
        BootPoint::TakeMariadbOnAbort | BootPoint::TakeMariadb => World {
            mariadb: world.mariadb.taken_by(Holder::Boot),
            ..world
        },
        BootPoint::TakeBackend => World { backend: world.backend.taken_by(Holder::Boot), ..world },
        BootPoint::CheckPort | BootPoint::AbortAfterMariadb | BootPoint::AbortAfterBackend
        | BootPoint::AwaitHealth | BootPoint::AbortAfterWait | BootPoint::Finished => world,
    }
}

/// Whether `event` can come of what the ending thread does at a point.
pub open spec fn exit_can(world: World, at: ExitPoint, event: ExitEvent) -> bool {
    match at {
        ExitPoint::SetAbort | ExitPoint::StopBackend | ExitPoint::StopMariadb => event is Done,
        ExitPoint::TakeBackend => event == ExitEvent::Taken(world.backend.holder is Shared),
        ExitPoint::TakeMariadb => event == ExitEvent::Taken(world.mariadb.holder is Shared),
        ExitPoint::Finished => false,
    }
}

/// What the ending thread does to the world at a point.
pub open spec fn exit_effect(world: World, at: ExitPoint) -> World {
    match at {
        ExitPoint::SetAbort => World { abort: true, ..world },
        ExitPoint::TakeBackend => World { backend: world.backend.taken_by(Holder::Exit), ..world },
        ExitPoint::StopBackend => World { backend: world.backend.stopped(), ..world },
        ExitPoint::TakeMariadb => World { mariadb: world.mariadb.taken_by(Holder::Exit), ..world },
        ExitPoint::StopMariadb => World { mariadb: world.mariadb.stopped(), ..world },
        ExitPoint::Finished => world,
    }
}

/// Whether a step can be taken.
pub open spec fn can_move(s: System, m: Move) -> bool {
    match m {
        Move::Boot(event) => boot_can(s.world, s.boot.at, event),
        Move::Exit(event) => exit_can(s.world, s.exit, event),
    }
}

/// The system after a step.
pub open spec fn moved(s: System, m: Move) -> System {
    match m {
        Move::Boot(event) => System {
            world: boot_effect(s.world, s.boot.at, event),
            boot: boot_next(s.boot, event),
            ..s
        },
        Move::Exit(event) => System {
            world: exit_effect(s.world, s.exit),
            exit: exit_next(s.exit, event),
            ..s
        },
    }
}

/// The system after these steps.
pub open spec fn after(port: u16, moves: Seq<Move>) -> System
    decreases moves.len(),
{
    if moves.len() == 0 {
        fresh(port)
    } else {
        moved(after(port, moves.drop_last()), moves.last())
    }
}

/// Whether these steps can be taken, one after the other.
pub open spec fn possible(port: u16, moves: Seq<Move>) -> bool
    decreases moves.len(),
{
    moves.len() == 0 || (possible(port, moves.drop_last()) && can_move(
        after(port, moves.drop_last()),
        moves.last(),
    ))
}

/// Whether the booting thread has the database at a point.
spec fn boot_has_mariadb(at: BootPoint) -> bool {
    at is AbortAfterMariadb || at is StopNewMariadb || at is StoreMariadb
        || at is StopMariadbOnAbort || at is StopMariadb
}

/// Whether the booting thread has the backend at a point.
spec fn boot_has_backend(at: BootPoint) -> bool {
    at is AbortAfterBackend || at is TakeMariadbOnAbort || at is StopMariadbOnAbort
        || at is TerminateNewBackend || at is StoreBackend || at is TerminateBackend
}

/// Whether the database was not started yet at a point.
spec fn before_mariadb(at: BootPoint) -> bool {
    at is CheckPort || at is StartMariadb
}

/// Whether the backend was not started yet at a point.
spec fn before_backend(at: BootPoint) -> bool {
    before_mariadb(at) || at is AbortAfterMariadb || at is StopNewMariadb || at is StoreMariadb
        || at is StartBackend
}

/// Whether a boot is on its way, or ended well.
spec fn goes_well(boot: BootView) -> bool {
    boot.error is None
}

/// Whether a boot at a point of failure has an error, and one at any other has none.
spec fn error_fits(boot: BootView) -> bool {
    match boot.at {
        BootPoint::CheckPort | BootPoint::StartMariadb | BootPoint::AbortAfterMariadb
        | BootPoint::StoreMariadb | BootPoint::StartBackend | BootPoint::AbortAfterBackend
        | BootPoint::StoreBackend | BootPoint::AwaitHealth => boot.error is None,
        BootPoint::Finished => true,
        _ => boot.error is Some,
    }
}

spec fn child_is_sound(c: Child) -> bool {
    &&& c.starts <= 1
    &&& c.stops <= c.starts
    &&& c.holder is Nobody <==> c.starts == c.stops
}

/// What holds of the system at all times.
spec fn sound(s: System) -> bool {
    let m = s.world.mariadb;
    let b = s.world.backend;
    let at = s.boot.at;
    &&& child_is_sound(m)
    &&& child_is_sound(b)
    &&& error_fits(s.boot)
    &&& s.world.abort <==> !(s.exit is SetAbort)
    &&& m.holder is Boot <==> boot_has_mariadb(at)
    &&& b.holder is Boot <==> boot_has_backend(at)
    &&& m.holder is Exit <==> s.exit is StopMariadb
    &&& b.holder is Exit <==> s.exit is StopBackend
    &&& before_mariadb(at) ==> m.starts == 0
    &&& before_backend(at) ==> b.starts == 0
    // What was cleaned up is not put back.
    &&& at is TakeMariadb || at is StopMariadb || (at is Finished && s.boot.error is Some)
        ==> !(b.holder is Shared)
    &&& at is Finished && s.boot.error is Some ==> !(m.holder is Shared)
    // Only the thread that ends the stack takes a child from a boot that goes well.
    &&& at is StartBackend || at is AbortAfterBackend || at is StoreBackend || at is AwaitHealth
        || (at is Finished && goes_well(s.boot)) ==> (s.exit is SetAbort ==> m.holder is Shared)
    &&& at is AwaitHealth || (at is Finished && goes_well(s.boot)) ==> {
        &&& b.starts == 1
        &&& m.starts == 1
        &&& s.world.clear_at_store ==> {
            &&& s.exit is SetAbort || s.exit is TakeBackend ==> b.holder is Shared
            &&& s.exit is TakeMariadb || s.exit is StopMariadb || s.exit is Finished
                ==> b.holder is Nobody
            &&& s.exit is SetAbort || s.exit is TakeBackend || s.exit is StopBackend
                || s.exit is TakeMariadb ==> m.holder is Shared
            &&& s.exit is Finished ==> m.holder is Nobody
        }
    }
    &&& at is Finished && goes_well(s.boot) ==> s.world.clear_at_store
    &&& s.boot.error matches Some(e) ==> (e.cancelled ==> s.world.abort)
    &&& at is StartBackend || boot_has_backend(at) && !(at is TerminateBackend) || at is AwaitHealth
        ==> m.starts == 1
}

proof fn lemma_boot_keeps_sound(s: System, event: BootEventView)
    requires
        sound(s),
        boot_can(s.world, s.boot.at, event),
    ensures
        sound(moved(s, Move::Boot(event))),
{
}

proof fn lemma_exit_keeps_sound(s: System, event: ExitEvent)
    requires
        sound(s),
        exit_can(s.world, s.exit, event),
    ensures
        sound(moved(s, Move::Exit(event))),
{
}

proof fn lemma_always_sound(port: u16, moves: Seq<Move>)
    requires
        possible(port, moves),
    ensures
        sound(after(port, moves)),
        after(port, moves).boot.port == port,
    decreases moves.len(),
{
    if moves.len() > 0 {
        lemma_always_sound(port, moves.drop_last());
        let before = after(port, moves.drop_last());
        match moves.last() {
            Move::Boot(event) => lemma_boot_keeps_sound(before, event),
            Move::Exit(event) => lemma_exit_keeps_sound(before, event),
        }
    }
}

/// No child is started or stopped twice, and none is stopped that does not run.
pub proof fn law_no_child_is_stopped_twice(port: u16, moves: Seq<Move>)
    requires
        possible(port, moves),
    ensures
        after(port, moves).world.mariadb.starts <= 1,
        after(port, moves).world.backend.starts <= 1,
        after(port, moves).world.mariadb.stops <= after(port, moves).world.mariadb.starts,
        after(port, moves).world.backend.stops <= after(port, moves).world.backend.starts,
{
    lemma_always_sound(port, moves);
}

/// A boot that failed or was cancelled leaves no child behind, neither running nor in its
/// shared place, once the thread that ends the stack, if it was called at all, is done
/// too.
pub proof fn law_failed_boot_leaves_no_child(port: u16, moves: Seq<Move>)
    requires
        possible(port, moves),
        after(port, moves).boot.at is Finished,
        after(port, moves).boot.error is Some,
        after(port, moves).exit is SetAbort || after(port, moves).exit is Finished,
    ensures
        !after(port, moves).world.mariadb.running(),
        !after(port, moves).world.backend.running(),
        !(after(port, moves).world.mariadb.holder is Shared),
        !(after(port, moves).world.backend.holder is Shared),
{
    lemma_always_sound(port, moves);
}

/// Once the user has closed the shell and both threads are done, no child is left
/// behind, whenever that was.
pub proof fn law_exit_leaves_no_child(port: u16, moves: Seq<Move>)
    requires
        possible(port, moves),
        after(port, moves).boot.at is Finished,
        after(port, moves).exit is Finished,
    ensures
        !after(port, moves).world.mariadb.running(),
        !after(port, moves).world.backend.running(),
{
    lemma_always_sound(port, moves);
}

/// A boot that went well leaves both children running, in their places, until the user
/// closes the shell.
pub proof fn law_good_boot_keeps_both_children(port: u16, moves: Seq<Move>)
    requires
        possible(port, moves),
        after(port, moves).boot.at is Finished,
        after(port, moves).boot.error is None,
        after(port, moves).exit is SetAbort,
    ensures
        after(port, moves).world.mariadb.running(),
        after(port, moves).world.backend.running(),
        after(port, moves).world.mariadb.holder is Shared,
        after(port, moves).world.backend.holder is Shared,
{
    lemma_always_sound(port, moves);
}

/// A boot counts as cancelled only where the user has closed the shell.
pub proof fn law_cancelled_means_closed(port: u16, moves: Seq<Move>)
    requires
        possible(port, moves),
        after(port, moves).boot.error matches Some(e) && e.cancelled,
    ensures
        after(port, moves).world.abort,
{
    lemma_always_sound(port, moves);
}

/// Where somebody answers on the port of the backend, no child is started at all.
pub proof fn law_taken_port_starts_nothing(port: u16, moves: Seq<Move>, i: int)
    requires
        possible(port, moves),
        0 <= i < moves.len(),
        moves[i] == Move::Boot(BootEventView::PortOpen(true)),
    ensures
        after(port, moves).world.mariadb.starts == 0,
        after(port, moves).world.backend.starts == 0,
        after(port, moves).boot.error == Some(failure(port_taken(port))),
{
    lemma_taken_port(port, moves, i);
}

proof fn lemma_taken_port(port: u16, moves: Seq<Move>, i: int)
    requires
        possible(port, moves),
        0 <= i < moves.len(),
        moves[i] == Move::Boot(BootEventView::PortOpen(true)),
    ensures
        ({
            let s = after(port, moves);
            &&& s.world.mariadb.starts == 0
            &&& s.world.backend.starts == 0
            &&& s.boot.error == Some(failure(port_taken(port)))
            &&& s.boot.at is TakeBackend || s.boot.at is TakeMariadb || s.boot.at is Finished
        }),
    decreases moves.len(),
{
    let earlier = moves.drop_last();
    lemma_always_sound(port, earlier);
    if i < earlier.len() {
        assert(earlier[i] == moves[i]);
        lemma_taken_port(port, earlier, i);
    }
}

/// How many steps the booting thread has left at most.
pub open spec fn boot_steps_left(at: BootPoint) -> nat {
    match at {
        BootPoint::CheckPort => 15,
        BootPoint::StartMariadb => 14,
        BootPoint::AbortAfterMariadb => 13,
        BootPoint::StoreMariadb => 12,
        BootPoint::StartBackend => 11,
        BootPoint::AbortAfterBackend => 10,
        BootPoint::StoreBackend => 9,
        BootPoint::AwaitHealth => 8,
        BootPoint::AbortAfterWait => 7,
        BootPoint::TakeMariadbOnAbort => 7,
        BootPoint::StopMariadbOnAbort => 6,
        BootPoint::TerminateNewBackend => 5,
        BootPoint::StopNewMariadb => 5,
        BootPoint::TakeBackend => 4,
        BootPoint::TerminateBackend => 3,
        BootPoint::TakeMariadb => 2,
        BootPoint::StopMariadb => 1,
        BootPoint::Finished => 0,
    }
}

/// How many steps the ending thread has left at most.
pub open spec fn exit_steps_left(at: ExitPoint) -> nat {
    match at {
        ExitPoint::SetAbort => 5,
        ExitPoint::TakeBackend => 4,
        ExitPoint::StopBackend => 3,
        ExitPoint::TakeMariadb => 2,
        ExitPoint::StopMariadb => 1,
        ExitPoint::Finished => 0,
    }
}

/// Both threads come to their end: every step that can be taken brings its thread nearer
/// to it.
pub proof fn law_both_threads_end(s: System, m: Move)
    requires
        can_move(s, m),
    ensures
        m is Boot ==> boot_steps_left(moved(s, m).boot.at) < boot_steps_left(s.boot.at),
        m is Exit ==> exit_steps_left(moved(s, m).exit) < exit_steps_left(s.exit),
{
}

/// A thread that has not come to its end can take a step.
pub proof fn law_no_thread_is_stuck(s: System)
    ensures
        s.boot.at is Finished || exists|event: BootEventView| can_move(s, Move::Boot(event)),
        s.exit is Finished || exists|event: ExitEvent| can_move(s, Move::Exit(event)),
{
    if !(s.boot.at is Finished) {
        let event = match s.boot.at {
            BootPoint::CheckPort => BootEventView::PortOpen(false),
            BootPoint::StartMariadb | BootPoint::StartBackend => BootEventView::Started,
            BootPoint::AbortAfterMariadb | BootPoint::AbortAfterBackend
            | BootPoint::AbortAfterWait => BootEventView::Aborted(s.world.abort),
            BootPoint::TakeMariadbOnAbort | BootPoint::TakeMariadb => BootEventView::Taken(
                s.world.mariadb.holder is Shared,
            ),
            BootPoint::TakeBackend => BootEventView::Taken(s.world.backend.holder is Shared),
            BootPoint::AwaitHealth => BootEventView::Unhealthy(seq![]),
            _ => BootEventView::Done,
        };
        assert(can_move(s, Move::Boot(event)));
    }
    if !(s.exit is Finished) {
        let event = match s.exit {
            ExitPoint::TakeBackend => ExitEvent::Taken(s.world.backend.holder is Shared),
            ExitPoint::TakeMariadb => ExitEvent::Taken(s.world.mariadb.holder is Shared),
            _ => ExitEvent::Done,
        };
        assert(can_move(s, Move::Exit(event)));
    }
}

} // verus!
