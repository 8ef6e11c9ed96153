//! The worker's side of the reporting pipeline: the commands it receives, the
//! events it makes of reports, and what it does with each command.

use vstd::prelude::*;
use crate::error::{Error, ErrorView, lookup, pairs_view};

verus! {

/// A command sent to the worker.
pub enum Command {
    /// Stop the worker.
    Terminate,
    /// Report an error.
    NewReport(Error),
}

/// What a command says.
pub enum CommandView {
    Terminate,
    NewReport(ErrorView),
}

impl View for Command {
    type V = CommandView;

    open spec fn view(&self) -> CommandView {
        match self {
            Command::Terminate => CommandView::Terminate,
            Command::NewReport(e) => CommandView::NewReport(e@),
        }
    }
}

/// Whether a `Terminate` stands among the commands.
pub open spec fn has_terminate(s: Seq<CommandView>) -> bool {
    exists|i: int| 0 <= i < s.len() && s[i] is Terminate
}

/// The reports that a worker delivers when it receives the commands in order:
/// those that come before the first `Terminate`.
pub open spec fn delivered(s: Seq<CommandView>) -> Seq<ErrorView>
    decreases s.len(),
{
    if s.len() == 0 {
        Seq::empty()
    } else {
        let p = s.drop_last();
        if has_terminate(p) {
            delivered(p)
        } else {
            match s.last() {
                CommandView::Terminate => delivered(p),
                CommandView::NewReport(e) => delivered(p).push(e),
            }
        }
    }
}

/// The decimal digits of a number.
pub open spec fn decimal(n: nat) -> Seq<char>
    decreases n,
{
    let digit = seq!['0', '1', '2', '3', '4', '5', '6', '7', '8', '9'][(n % 10) as int];
    if n < 10 {
        seq![digit]
    } else {
        decimal(n / 10).push(digit)
    }
}

/// Relies on `u16::to_string`: a number's decimal digits, with no sign and no
/// leading zero.
#[verifier::external_body]
fn decimal_text(n: u16) -> (r: String)
    ensures
        r@ == decimal(n as nat),
{
    n.to_string()
}

/// The metadata key of an error's kind.
pub const TYPE_KEY: &'static str = "type";

/// The metadata key of an error's title.
pub const TITLE_KEY: &'static str = "title";

/// The metadata key of an error's status code.
pub const STATUS_KEY: &'static str = "status";

/// Whether a key is one of those that an event's metadata gives the error's
/// own fields.
pub open spec fn is_identifying(k: Seq<char>) -> bool {
    k == TYPE_KEY@ || k == TITLE_KEY@ || k == STATUS_KEY@
}

/// The extras that an event carries over: those whose key is not identifying.
pub open spec fn carried(s: Seq<(Seq<char>, Seq<char>)>) -> Seq<(Seq<char>, Seq<char>)>
    decreases s.len(),
{
    if s.len() == 0 {
        Seq::empty()
    } else if is_identifying(s.last().0) {
        carried(s.drop_last())
    } else {
        carried(s.drop_last()).push(s.last())
    }
}

/// What an event for the error tracker says.
pub struct EventView {
    pub message: Seq<char>,
    pub fingerprint: Seq<Seq<char>>,
    pub extra: Seq<(Seq<char>, Seq<char>)>,
}

/// The event made of an error: its title is the message, its kind the
/// fingerprint, and its metadata holds its extras and then its kind, title and
/// status code.
pub open spec fn event_of(e: ErrorView) -> EventView {
    EventView {
        message: e.title,
        fingerprint: seq![e.kind],
        extra: carried(e.extras) + seq![
            (TYPE_KEY@, e.kind),
            (TITLE_KEY@, e.title),
            (STATUS_KEY@, decimal(e.status as nat)),
        ],
    }
}

proof fn lemma_lookup_concat(
    a: Seq<(Seq<char>, Seq<char>)>,
    b: Seq<(Seq<char>, Seq<char>)>,
    k: Seq<char>,
)
    ensures
        lookup(a + b, k) == (match lookup(a, k) {
            Some(v) => Some(v),
            None => lookup(b, k),
        }),
    decreases a.len(),
{
    if a.len() == 0 {
        assert(a + b =~= b);
    } else {
        assert((a + b)[0] == a[0]);
        assert((a + b).skip(1) =~= a.skip(1) + b);
        lemma_lookup_concat(a.skip(1), b, k);
    }
}

proof fn lemma_lookup_last(s: Seq<(Seq<char>, Seq<char>)>, k: Seq<char>)
    requires
        s.len() > 0,
    ensures
        lookup(s, k) == (match lookup(s.drop_last(), k) {
            Some(v) => Some(v),
            None => if s.last().0 == k {
                Some(s.last().1)
            } else {
                None
            },
        }),
{
    assert(s.drop_last().push(s.last()) =~= s);
    crate::error::lemma_lookup_push(s.drop_last(), s.last(), k);
}

proof fn lemma_carried_lookup(s: Seq<(Seq<char>, Seq<char>)>, k: Seq<char>)
    ensures
        lookup(carried(s), k) == if is_identifying(k) {
            None
        } else {
            lookup(s, k)
        },
    decreases s.len(),
{
    if s.len() > 0 {
        lemma_carried_lookup(s.drop_last(), k);
        lemma_lookup_last(s, k);
        if !is_identifying(s.last().0) {
            let c = carried(s.drop_last()).push(s.last());
            assert(c.drop_last() =~= carried(s.drop_last()));
            lemma_lookup_last(c, k);
        }
    }
}

/// The metadata of the event made of an error gives its kind under `type`,
/// its title under `title` and its status code under `status`; under any
/// other key it gives what the error's extras give. The fingerprint is the
/// error's kind.
pub proof fn lemma_event_metadata(e: ErrorView, k: Seq<char>)
    ensures
        event_of(e).fingerprint == seq![e.kind],
        lookup(event_of(e).extra, TYPE_KEY@) == Some(e.kind),
        lookup(event_of(e).extra, TITLE_KEY@) == Some(e.title),
        lookup(event_of(e).extra, STATUS_KEY@) == Some(decimal(e.status as nat)),
        !is_identifying(k) ==> lookup(event_of(e).extra, k) == lookup(e.extras, k),
{
    reveal_strlit("type");
    reveal_strlit("title");
    reveal_strlit("status");
    let tail = seq![
        (TYPE_KEY@, e.kind),
        (TITLE_KEY@, e.title),
        (STATUS_KEY@, decimal(e.status as nat)),
    ];
    assert(TYPE_KEY@ != TITLE_KEY@ && TYPE_KEY@ != STATUS_KEY@ && TITLE_KEY@ != STATUS_KEY@) by {
        assert(TYPE_KEY@[1] != TITLE_KEY@[1]);
        assert(TYPE_KEY@.len() != STATUS_KEY@.len());
        assert(TITLE_KEY@.len() != STATUS_KEY@.len());
    }
    assert(tail.skip(1)[0] == (TITLE_KEY@, e.title));
    assert(tail.skip(1).skip(1)[0] == (STATUS_KEY@, decimal(e.status as nat)));
    assert(tail.skip(1).skip(1).skip(1).len() == 0);
    assert(lookup(tail.skip(1).skip(1).skip(1), k) is None);
    assert(lookup(tail, TYPE_KEY@) == Some(e.kind));
    assert(lookup(tail.skip(1), TITLE_KEY@) == Some(e.title));
    assert(lookup(tail, TITLE_KEY@) == Some(e.title));
    assert(lookup(tail.skip(1).skip(1), STATUS_KEY@) == Some(decimal(e.status as nat)));
    assert(lookup(tail.skip(1), STATUS_KEY@) == Some(decimal(e.status as nat)));
    assert(lookup(tail, STATUS_KEY@) == Some(decimal(e.status as nat)));
    if !is_identifying(k) {
        assert(lookup(tail.skip(1).skip(1), k) is None);
        assert(lookup(tail.skip(1), k) is None);
        assert(lookup(tail, k) is None);
    }
    lemma_lookup_concat(carried(e.extras), tail, TYPE_KEY@);
    lemma_lookup_concat(carried(e.extras), tail, TITLE_KEY@);
    lemma_lookup_concat(carried(e.extras), tail, STATUS_KEY@);
    lemma_lookup_concat(carried(e.extras), tail, k);
    lemma_carried_lookup(e.extras, TYPE_KEY@);
    lemma_carried_lookup(e.extras, TITLE_KEY@);
    lemma_carried_lookup(e.extras, STATUS_KEY@);
    lemma_carried_lookup(e.extras, k);
}

/// An event for the error tracker, at the level of an error. Events with the
/// same fingerprint are grouped into one issue.
pub struct SinkEvent {
    pub message: String,
    pub fingerprint: Vec<String>,
    pub extra: Vec<(String, String)>,
}

impl View for SinkEvent {
    type V = EventView;

    open spec fn view(&self) -> EventView {
        EventView {
            message: self.message@,
            fingerprint: self.fingerprint@.map_values(|s: String| s@),
            extra: pairs_view(self.extra@),
        }
    }
}

/// Makes the event that reports an error.
pub fn to_event(e: &Error) -> (r: SinkEvent)
    ensures
        r@ == event_of(e@),
{
    let extras = e.extras();
    let type_key = TYPE_KEY.to_owned();
    let title_key = TITLE_KEY.to_owned();
    let status_key = STATUS_KEY.to_owned();
    let mut extra: Vec<(String, String)> = Vec::new();
    let n = extras.len();
    let mut i: usize = 0;
    while i < n
        invariant
            n == extras@.len(),
            0 <= i <= n,
            pairs_view(extras@) == e@.extras,
            type_key@ == TYPE_KEY@,
            title_key@ == TITLE_KEY@,
            status_key@ == STATUS_KEY@,
            pairs_view(extra@) == carried(pairs_view(extras@).take(i as int)),
        decreases n - i,
    {
        let ghost before = pairs_view(extra@);
        let pair = &extras[i];
        assert(pairs_view(extras@).take(i + 1).drop_last() =~= pairs_view(extras@).take(i as int));
        if !(pair.0 == type_key || pair.0 == title_key || pair.0 == status_key) {
            extra.push((pair.0.clone(), pair.1.clone()));
            assert(pairs_view(extra@) =~= before.push((pair.0@, pair.1@)));
        }
        i += 1;
    }
    assert(pairs_view(extras@).take(n as int) =~= pairs_view(extras@));
    let ghost carried_part = pairs_view(extra@);
    let kind = e.kind().to_owned();
    let title = e.title().to_owned();
    extra.push((type_key, kind));
    extra.push((title_key, title));
    extra.push((status_key, decimal_text(e.status_code().as_u16())));
    let mut fingerprint: Vec<String> = Vec::new();
    fingerprint.push(e.kind().to_owned());
    let r = SinkEvent { message: e.title().to_owned(), fingerprint, extra };
    assert(r@.fingerprint =~= seq![e@.kind]);
    assert(r@.extra =~= event_of(e@).extra);
    r
}

/// What the worker does after a command.
pub enum Action {
    /// Submit the event to the error tracker, then wait for the next command.
    Submit(SinkEvent),
    /// Stop: the thread ends and later commands are never read.
    Stop,
    /// Nothing: the worker has already stopped.
    Ignore,
}

/// The worker's decisions: it forwards each report as an event until it
/// receives `Terminate`, and does nothing after that.
pub struct Worker {
    stopped: bool,
    seen: Ghost<Seq<CommandView>>,
}

impl Worker {
    #[verifier::type_invariant]
    spec fn consistent(self) -> bool {
        self.stopped == has_terminate(self.seen@)
    }

    /// The commands the worker has received, in order.
    pub closed spec fn received(self) -> Seq<CommandView> {
        self.seen@
    }

    /// A worker that has received nothing.
    pub fn new() -> (r: Worker)
        ensures
            r.received() == Seq::<CommandView>::empty(),
    {
        Worker { stopped: false, seen: Ghost(Seq::empty()) }
    }

    /// Whether the worker has received `Terminate`.
    pub fn is_stopped(&self) -> (r: bool)
        ensures
            r == has_terminate(self.received()),
    {
        proof {
            use_type_invariant(self);
        }
        self.stopped
    }

    /// Decides what to do with the next command. A report received before any
    /// `Terminate` is submitted, as the event made of it; the first `Terminate`
    /// stops the worker; any command after it is ignored. So the reports
    /// submitted are always those that `delivered` gives of the commands
    /// received.
    pub fn handle(&mut self, cmd: Command) -> (r: Action)
        ensures
            final(self).received() == old(self).received().push(cmd@),
            match r {
                Action::Submit(ev) => {
                    &&& !has_terminate(old(self).received())
                    &&& cmd@ is NewReport
                    &&& ev@ == event_of(cmd@->NewReport_0)
                    &&& delivered(final(self).received()) == delivered(old(self).received()).push(
                        cmd@->NewReport_0,
                    )
                },
                Action::Stop => {
                    &&& !has_terminate(old(self).received())
                    &&& cmd@ is Terminate
                    &&& delivered(final(self).received()) == delivered(old(self).received())
                },
                Action::Ignore => {
                    &&& has_terminate(old(self).received())
                    &&& delivered(final(self).received()) == delivered(old(self).received())
                },
            },
    {
        proof {
            use_type_invariant(&*self);
        }
        let ghost before = self.seen@;
        let ghost c = cmd@;
        let ghost after = before.push(c);
        assert(after.drop_last() =~= before);
        proof {
            if has_terminate(before) {
                let i = choose|i: int| 0 <= i < before.len() && before[i] is Terminate;
                assert(after[i] is Terminate);
            }
            if c is Terminate {
                assert(after[before.len() as int] is Terminate);
            }
            if !has_terminate(before) && c is NewReport {
                assert forall|i: int| 0 <= i < after.len() implies !(after[i] is Terminate) by {
                    if i < before.len() {
                        assert(after[i] == before[i]);
                    }
                }
            }
        }
        if self.stopped {
            *self = Worker { stopped: true, seen: Ghost(after) };
            return Action::Ignore;
        }
        match cmd {
            Command::Terminate => {
                *self = Worker { stopped: true, seen: Ghost(after) };
                Action::Stop
            },
            Command::NewReport(e) => {
                let ev = to_event(&e);
                *self = Worker { stopped: false, seen: Ghost(after) };
                Action::Submit(ev)
            },
        }
    }
}

/// The commands that send each report in turn.
pub open spec fn report_commands(rs: Seq<ErrorView>) -> Seq<CommandView> {
    rs.map_values(|e: ErrorView| CommandView::NewReport(e))
}

proof fn lemma_reports_delivered(rs: Seq<ErrorView>)
    ensures
        !has_terminate(report_commands(rs)),
        delivered(report_commands(rs)) == rs,
    decreases rs.len(),
{
    if rs.len() > 0 {
        lemma_reports_delivered(rs.drop_last());
        assert(report_commands(rs).drop_last() =~= report_commands(rs.drop_last()));
        assert(rs.drop_last().push(rs.last()) =~= rs);
    }
}

/// Reports sent one after another and then `Terminate` are all delivered,
/// each once, in the order they were sent.
pub proof fn lemma_reports_delivered_in_order(rs: Seq<ErrorView>)
    ensures
        delivered(report_commands(rs).push(CommandView::Terminate)) == rs,
{
    lemma_reports_delivered(rs);
    assert(report_commands(rs).push(CommandView::Terminate).drop_last() =~= report_commands(rs));
}

/// Nothing that comes after a `Terminate` is delivered: the commands up to it
/// deliver what the whole sequence delivers.
pub proof fn lemma_nothing_after_terminate(q: Seq<CommandView>, rest: Seq<CommandView>)
    ensures
        delivered(q.push(CommandView::Terminate) + rest) == delivered(q),
    decreases rest.len(),
{
    let s = q.push(CommandView::Terminate) + rest;
    if rest.len() == 0 {
        assert(s =~= q.push(CommandView::Terminate));
        assert(s.drop_last() =~= q);
    } else {
        assert(s.drop_last() =~= q.push(CommandView::Terminate) + rest.drop_last());
        assert(s.drop_last()[q.len() as int] is Terminate);
        lemma_nothing_after_terminate(q, rest.drop_last());
    }
}

} // verus!
