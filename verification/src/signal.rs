//! The per-request record of which tracked request headers were read.
//!
//! A [`SignalCell`] notes whether one header kind was read, a [`SignalSet`]
//! holds one cell per kind, and a [`RequestStorage`] is the place where a
//! request keeps its set while it is being handled.

use vstd::prelude::*;
use crate::headers::{HX_REQUEST, HX_TARGET, HX_TRIGGER, HX_TRIGGER_NAME};

verus! {

/// The request headers whose use is tracked, in canonical order.
#[derive(Debug, Clone, Copy, PartialEq, Eq, Structural)]
pub enum HeaderKind {
    /// `hx-request`
    Request,
    /// `hx-target`
    Target,
    /// `hx-trigger`
    Trigger,
    /// `hx-trigger-name`
    TriggerName,
}

impl HeaderKind {
    /// The place of this kind in the canonical order.
    pub open spec fn index(self) -> int {
        match self {
            HeaderKind::Request => 0,
            HeaderKind::Target => 1,
            HeaderKind::Trigger => 2,
            HeaderKind::TriggerName => 3,
        }
    }

    /// The header name of this kind, as it is written into `Vary`.
    pub open spec fn name(self) -> Seq<char> {
        match self {
            HeaderKind::Request => HX_REQUEST@,
            HeaderKind::Target => HX_TARGET@,
            HeaderKind::Trigger => HX_TRIGGER@,
            HeaderKind::TriggerName => HX_TRIGGER_NAME@,
        }
    }

    /// All kinds in canonical order.
    pub open spec fn canonical() -> Seq<HeaderKind> {
        seq![
            HeaderKind::Request,
            HeaderKind::Target,
            HeaderKind::Trigger,
            HeaderKind::TriggerName,
        ]
    }

    /// The header name of this kind.
    pub fn as_str(&self) -> (r: &'static str)
        ensures
            r@ == self.name(),
    {
        match self {
            HeaderKind::Request => HX_REQUEST,
            HeaderKind::Target => HX_TARGET,
            HeaderKind::Trigger => HX_TRIGGER,
            HeaderKind::TriggerName => HX_TRIGGER_NAME,
        }
    }

    /// The place of this kind in the canonical order, from 0.
    pub fn position(&self) -> (r: usize)
        ensures
            r == self.index(),
            HeaderKind::canonical()[r as int] == *self,
    {
        match self {
            HeaderKind::Request => 0,
            HeaderKind::Target => 1,
            HeaderKind::Trigger => 2,
            HeaderKind::TriggerName => 3,
        }
    }
}

/// Whether one header kind was read while the request was handled. A cell
/// is read by consuming it.
#[derive(Debug, Clone, PartialEq, Eq, Structural)]
pub enum SignalCell {
    /// Created, not fired so far.
    Armed,
    /// Fired at least once.
    Fired,
    /// Given up by its writer without having fired.
    Abandoned,
}

impl SignalCell {
    /// The cell after one firing.
    pub open spec fn fired(self) -> SignalCell {
        SignalCell::Fired
    }

    /// The cell after `n` firings.
    pub open spec fn fired_times(self, n: nat) -> SignalCell
        decreases n,
    {
        if n == 0 {
            self
        } else {
            self.fired().fired_times((n - 1) as nat)
        }
    }

    /// The cell after its writer let go of it.
    pub open spec fn released(self) -> SignalCell {
        match self {
            SignalCell::Fired => SignalCell::Fired,
            _ => SignalCell::Abandoned,
        }
    }

    /// What an observer learns from the cell.
    pub open spec fn observed(self) -> bool {
        self is Fired
    }

    /// A fresh cell.
    pub fn arm() -> (r: SignalCell)
        ensures
            r == SignalCell::Armed,
            !r.observed(),
    {
        SignalCell::Armed
    }

    /// Notes that the header was read. Firing again changes nothing.
    pub fn fire(&mut self)
        ensures
            *final(self) == old(self).fired(),
            final(self).observed(),
    {
        *self = SignalCell::Fired;
    }

    /// The writer lets go of the cell: a cell that has not fired will never
    /// fire.
    pub fn release(&mut self)
        ensures
            *final(self) == old(self).released(),
            final(self).observed() == old(self).observed(),
    {
        match self {
            SignalCell::Fired => {},
            _ => {
                *self = SignalCell::Abandoned;
            },
        }
    }

    /// Consumes the cell and tells whether it fired.
    pub fn observe(self) -> (r: bool)
        ensures
            r == self.observed(),
    {
        match self {
            SignalCell::Fired => true,
            _ => false,
        }
    }
}

/// Firing a cell once or more leaves it as a single firing does, whatever
/// state it was in, and an observer then sees that it fired.
pub proof fn lemma_fire_idempotent(cell: SignalCell, n: nat)
    requires
        n >= 1,
    ensures
        cell.fired_times(n) == cell.fired(),
        cell.fired_times(n).observed(),
        cell.fired_times(n).released().observed(),
    decreases n,
{
    if n > 1 {
        lemma_fire_idempotent(cell.fired(), (n - 1) as nat);
    } else {
        assert(cell.fired().fired_times(0) == cell.fired());
    }
}

/// A cell that fired stays fired: neither firing again nor releasing it
/// changes what an observer sees.
pub proof fn lemma_fired_is_final(cell: SignalCell)
    requires
        cell.observed(),
    ensures
        cell.fired() == cell,
        cell.released() == cell,
{
}

/// One cell per tracked header kind. The set is read by consuming it.
#[derive(Debug, Clone, PartialEq, Eq, Structural)]
pub struct SignalSet {
    pub request: SignalCell,
    pub target: SignalCell,
    pub trigger: SignalCell,
    pub trigger_name: SignalCell,
}

impl SignalSet {
    /// The cell of `kind`.
    pub open spec fn cell(self, kind: HeaderKind) -> SignalCell {
        match kind {
            HeaderKind::Request => self.request,
            HeaderKind::Target => self.target,
            HeaderKind::Trigger => self.trigger,
            HeaderKind::TriggerName => self.trigger_name,
        }
    }

    /// The set with every cell armed.
    pub open spec fn armed() -> SignalSet {
        SignalSet {
            request: SignalCell::Armed,
            target: SignalCell::Armed,
            trigger: SignalCell::Armed,
            trigger_name: SignalCell::Armed,
        }
    }

    /// The set after the cell of `kind` fired.
    pub open spec fn marked(self, kind: HeaderKind) -> SignalSet {
        match kind {
            HeaderKind::Request => SignalSet { request: self.request.fired(), ..self },
            HeaderKind::Target => SignalSet { target: self.target.fired(), ..self },
            HeaderKind::Trigger => SignalSet { trigger: self.trigger.fired(), ..self },
            HeaderKind::TriggerName => SignalSet {
                trigger_name: self.trigger_name.fired(),
                ..self
            },
        }
    }

    /// The set after the cells of `marks` fired, one after the other.
    pub open spec fn marked_all(self, marks: Seq<HeaderKind>) -> SignalSet
        decreases marks.len(),
    {
        if marks.len() == 0 {
            self
        } else {
            self.marked_all(marks.drop_last()).marked(marks.last())
        }
    }

    /// The set after every writer let go of its cell.
    pub open spec fn released(self) -> SignalSet {
        SignalSet {
            request: self.request.released(),
            target: self.target.released(),
            trigger: self.trigger.released(),
            trigger_name: self.trigger_name.released(),
        }
    }

    /// The kinds whose cells fired.
    pub open spec fn fired(self) -> Set<HeaderKind> {
        Set::new(|kind: HeaderKind| self.cell(kind).observed())
    }

    /// The kinds whose cells fired, in canonical order.
    pub open spec fn fired_in_order(self) -> Seq<HeaderKind> {
        HeaderKind::canonical().filter(|kind: HeaderKind| self.cell(kind).observed())
    }

    /// A set of fresh cells.
    pub fn new() -> (r: SignalSet)
        ensures
            r == SignalSet::armed(),
    {
        SignalSet {
            request: SignalCell::arm(),
            target: SignalCell::arm(),
            trigger: SignalCell::arm(),
            trigger_name: SignalCell::arm(),
        }
    }

    /// Fires the cell of `kind` and leaves the others alone.
    pub fn mark(&mut self, kind: HeaderKind)
        ensures
            *final(self) == old(self).marked(kind),
            final(self).fired() == old(self).fired().insert(kind),
    {
        match kind {
            HeaderKind::Request => self.request.fire(),
            HeaderKind::Target => self.target.fire(),
            HeaderKind::Trigger => self.trigger.fire(),
            HeaderKind::TriggerName => self.trigger_name.fire(),
        }
        proof {
            lemma_marked_fired(*old(self), kind);
        }
    }

    /// Every writer lets go of its cell.
    pub fn release(&mut self)
        ensures
            *final(self) == old(self).released(),
            final(self).fired() == old(self).fired(),
    {
        self.request.release();
        self.target.release();
        self.trigger.release();
        self.trigger_name.release();
        proof {
            lemma_released_fired(*old(self));
        }
    }

    /// Reads every cell in canonical order and returns the kinds that fired.
    pub fn drain(self) -> (r: Vec<HeaderKind>)
        ensures
            r@ == self.fired_in_order(),
            r@.len() <= 4,
            r@.len() == 0 <==> self.fired() == Set::<HeaderKind>::empty(),
            forall|kind: HeaderKind| r@.contains(kind) <==> self.fired().contains(kind),
            forall|i: int, j: int|
                0 <= i < j < r@.len() ==> (#[trigger] r@[i]).index() < (#[trigger] r@[j]).index(),
    {
        let mut used: Vec<HeaderKind> = Vec::new();
        if self.request.observe() {
            used.push(HeaderKind::Request);
        }
        if self.target.observe() {
            used.push(HeaderKind::Target);
        }
        if self.trigger.observe() {
            used.push(HeaderKind::Trigger);
        }
        if self.trigger_name.observe() {
            used.push(HeaderKind::TriggerName);
        }
        proof {
            lemma_fired_in_order(self);
            assert(used@ =~= self.fired_in_order());
            if used@.len() == 0 {
                assert(self.fired() =~= Set::<HeaderKind>::empty());
            } else {
                assert(self.fired().contains(used@[0]));
            }
        }
        used
    }
}

/// Marking a kind adds it to the kinds that fired, and nothing else.
pub proof fn lemma_marked_fired(set: SignalSet, kind: HeaderKind)
    ensures
        set.marked(kind).fired() == set.fired().insert(kind),
        set.marked(kind).cell(kind).observed(),
        forall|other: HeaderKind| other != kind ==> set.marked(kind).cell(other) == set.cell(other),
{
    assert(set.marked(kind).fired() =~= set.fired().insert(kind));
}

/// Letting go of the cells does not change which kinds fired.
pub proof fn lemma_released_fired(set: SignalSet)
    ensures
        set.released().fired() == set.fired(),
        set.released().fired_in_order() == set.fired_in_order(),
{
    assert(set.released().fired() =~= set.fired());
    lemma_fired_in_order(set);
    lemma_fired_in_order(set.released());
}

/// The kinds that fired, in canonical order, written out cell by cell.
pub open spec fn ordered(set: SignalSet) -> Seq<HeaderKind> {
    let a = if set.request.observed() {
        seq![HeaderKind::Request]
    } else {
        Seq::empty()
    };
    let b = if set.target.observed() {
        a.push(HeaderKind::Target)
    } else {
        a
    };
    let c = if set.trigger.observed() {
        b.push(HeaderKind::Trigger)
    } else {
        b
    };
    if set.trigger_name.observed() {
        c.push(HeaderKind::TriggerName)
    } else {
        c
    }
}

/// Filtering the canonical order by the cells gives the same sequence as
/// going through the four cells by hand; it holds each fired kind once, and
/// in rising order.
pub proof fn lemma_fired_in_order(set: SignalSet)
    ensures
        set.fired_in_order() == ordered(set),
        set.fired_in_order().len() <= 4,
        forall|kind: HeaderKind| set.fired_in_order().contains(kind) <==> set.fired().contains(kind),
        forall|i: int, j: int|
            0 <= i < j < set.fired_in_order().len() ==> (#[trigger] set.fired_in_order()[i]).index()
                < (#[trigger] set.fired_in_order()[j]).index(),
{
    let pred = |kind: HeaderKind| set.cell(kind).observed();
    let s0 = Seq::<HeaderKind>::empty();
    let s1 = s0.push(HeaderKind::Request);
    let s2 = s1.push(HeaderKind::Target);
    let s3 = s2.push(HeaderKind::Trigger);
    let s4 = s3.push(HeaderKind::TriggerName);
    assert(s4 =~= HeaderKind::canonical());
    reveal_with_fuel(Seq::filter, 2);
    let f0 = s0.filter(pred);
    let f1 = s1.filter(pred);
    let f2 = s2.filter(pred);
    let f3 = s3.filter(pred);
    assert(f0 =~= Seq::<HeaderKind>::empty());
    assert(s1.drop_last() =~= s0);
    assert(f1 == if set.request.observed() { f0.push(HeaderKind::Request) } else { f0 });
    assert(s2.drop_last() =~= s1);
    assert(f2 == if set.target.observed() { f1.push(HeaderKind::Target) } else { f1 });
    assert(s3.drop_last() =~= s2);
    assert(f3 == if set.trigger.observed() { f2.push(HeaderKind::Trigger) } else { f2 });
    assert(s4.drop_last() =~= s3);
    assert(s4.filter(pred) == if set.trigger_name.observed() {
        f3.push(HeaderKind::TriggerName)
    } else {
        f3
    });
    assert(s4.filter(pred) =~= ordered(set));
    let r = ordered(set);
    assert forall|kind: HeaderKind| r.contains(kind) <==> set.fired().contains(kind) by {
        if set.fired().contains(kind) {
            let at = (if set.request.observed() { 1int } else { 0int })
                + (if set.target.observed() && kind.index() >= 1 { 1int } else { 0int })
                + (if set.trigger.observed() && kind.index() >= 2 { 1int } else { 0int })
                + (if set.trigger_name.observed() && kind.index() >= 3 { 1int } else { 0int });
            let at = match kind {
                HeaderKind::Request => 0int,
                _ => at - 1,
            };
            assert(r[at] == kind);
        }
    }
}

/// A mistake in how the application was put together.
#[derive(Debug, Clone, Copy, PartialEq, Eq, Structural)]
pub enum ConfigError {
    /// The `Vary` middleware was applied twice on one request path.
    InstalledTwice,
}

impl ConfigError {
    /// The text shown for this error.
    pub open spec fn text(self) -> Seq<char> {
        "Configuration error: `axum_httpx::vary_middleware` is used twice"@
    }

    /// The text shown for this error.
    pub fn message(&self) -> (r: &'static str)
        ensures
            r@ == self.text(),
    {
        "Configuration error: `axum_httpx::vary_middleware` is used twice"
    }
}

/// What one request carries along while it is handled: at most one signal
/// set, and whatever else the application keeps there.
#[derive(Debug)]
pub struct RequestStorage {
    /// The signal set, once the `Vary` middleware has installed it.
    pub signals: Option<SignalSet>,
    /// Tags of unrelated values kept with the request.
    pub others: Vec<u64>,
}

impl RequestStorage {
    /// The storage after a signal set was installed, where that is allowed:
    /// only a set that is already there stands in the way.
    pub open spec fn installed(self) -> Option<RequestStorage> {
        match self.signals {
            None => Some(RequestStorage { signals: Some(SignalSet::armed()), others: self.others }),
            Some(_) => None,
        }
    }

    /// The storage after a collaborator reported that it read `kind`.
    pub open spec fn marked(self, kind: HeaderKind) -> RequestStorage {
        match self.signals {
            None => self,
            Some(set) => RequestStorage { signals: Some(set.marked(kind)), others: self.others },
        }
    }

    /// The storage after collaborators reported `marks`, one after the other.
    pub open spec fn marked_all(self, marks: Seq<HeaderKind>) -> RequestStorage
        decreases marks.len(),
    {
        if marks.len() == 0 {
            self
        } else {
            self.marked_all(marks.drop_last()).marked(marks.last())
        }
    }

    /// The set that the middleware gets back once the handler is done.
    pub open spec fn collected(self) -> Option<SignalSet> {
        match self.signals {
            None => None,
            Some(set) => Some(set.released()),
        }
    }

    /// Storage of a request that nothing was attached to.
    pub fn new() -> (r: RequestStorage)
        ensures
            r.signals is None,
            r.others@.len() == 0,
    {
        RequestStorage { signals: None, others: Vec::new() }
    }

    /// Keeps an unrelated value, known by its tag, with the request.
    pub fn attach(&mut self, tag: u64)
        ensures
            final(self).signals == old(self).signals,
            final(self).others@ == old(self).others@.push(tag),
    {
        self.others.push(tag);
    }

    /// Installs a fresh signal set. Fails, and changes nothing, where the
    /// storage already holds one; what else the storage holds plays no part.
    pub fn install(&mut self) -> (r: Result<(), ConfigError>)
        ensures
            r is Ok <==> old(self).signals is None,
            r is Ok ==> Some(*final(self)) == old(self).installed(),
            r is Err ==> r == Err::<(), ConfigError>(ConfigError::InstalledTwice) && *final(self)
                == *old(self),
            final(self).signals is Some,
            final(self).others == old(self).others,
    {
        if self.signals.is_some() {
            return Err(ConfigError::InstalledTwice);
        }
        self.signals = Some(SignalSet::new());
        Ok(())
    }

    /// Reports that `kind` was read. Does nothing where no signal set is
    /// installed.
    pub fn try_mark(&mut self, kind: HeaderKind)
        ensures
            *final(self) == old(self).marked(kind),
            old(self).signals is None ==> *final(self) == *old(self),
            final(self).others == old(self).others,
    {
        match self.signals.take() {
            Some(set) => {
                let mut set = set;
                set.mark(kind);
                self.signals = Some(set);
            },
            None => {},
        }
    }

    /// Takes the signal set out of the storage, its writers having let go.
    pub fn collect(&mut self) -> (r: Option<SignalSet>)
        ensures
            r == old(self).collected(),
            final(self).signals is None,
            final(self).others == old(self).others,
    {
        match self.signals.take() {
            Some(set) => {
                let mut set = set;
                set.release();
                Some(set)
            },
            None => None,
        }
    }
}

/// After any run of marks on a fresh set, the kinds that fired are exactly
/// those that were marked at least once: neither the order of the marks nor
/// how often a kind was marked shows.
pub proof fn lemma_marks_fired(marks: Seq<HeaderKind>)
    ensures
        SignalSet::armed().marked_all(marks).fired() == marks.to_set(),
        SignalSet::armed().marked_all(marks).fired_in_order() == HeaderKind::canonical().filter(
            |kind: HeaderKind| marks.contains(kind),
        ),
    decreases marks.len(),
{
    let set = SignalSet::armed().marked_all(marks);
    if marks.len() == 0 {
        assert(set.fired() =~= marks.to_set());
    } else {
        let before = marks.drop_last();
        lemma_marks_fired(before);
        lemma_marked_fired(SignalSet::armed().marked_all(before), marks.last());
        assert(marks =~= before.push(marks.last()));
        assert forall|kind: HeaderKind| marks.to_set().contains(kind) <==> before.to_set().insert(
            marks.last(),
        ).contains(kind) by {
            if marks.contains(kind) {
                let i = choose|i: int| 0 <= i < marks.len() && marks[i] == kind;
                if i < before.len() {
                    assert(before[i] == kind);
                }
            }
            if before.contains(kind) {
                let i = choose|i: int| 0 <= i < before.len() && before[i] == kind;
                assert(marks[i] == kind);
            }
            if kind == marks.last() {
                assert(marks[marks.len() - 1] == kind);
            }
        }
        assert(set.fired() =~= marks.to_set());
    }
    let by_cell = |kind: HeaderKind| set.cell(kind).observed();
    let by_mark = |kind: HeaderKind| marks.contains(kind);
    assert forall|kind: HeaderKind| #[trigger] by_cell(kind) == by_mark(kind) by {
        assert(set.fired().contains(kind) == marks.to_set().contains(kind));
    }
    assert(by_cell =~= by_mark);
}

/// Marking one kind `n >= 1` times in a row leaves a set as marking it once
/// does.
pub proof fn lemma_mark_idempotent(set: SignalSet, kind: HeaderKind, n: nat)
    requires
        n >= 1,
    ensures
        set.marked_all(Seq::new(n, |i: int| kind)) == set.marked(kind),
    decreases n,
{
    let marks = Seq::new(n, |i: int| kind);
    assert(marks.last() == kind);
    if n == 1 {
        assert(marks.drop_last() =~= Seq::<HeaderKind>::empty());
        assert(set.marked_all(marks.drop_last()) == set);
    } else {
        assert(marks.drop_last() =~= Seq::new((n - 1) as nat, |i: int| kind));
        lemma_mark_idempotent(set, kind, (n - 1) as nat);
        assert(set.marked(kind).marked(kind) == set.marked(kind));
    }
}

/// Marks change nothing but the signal set: where none is installed they
/// change nothing at all, and where one is installed it stays installed.
pub proof fn lemma_marks_keep_installation(storage: RequestStorage, marks: Seq<HeaderKind>)
    ensures
        storage.marked_all(marks).others == storage.others,
        storage.signals is None ==> storage.marked_all(marks) == storage,
        storage.signals matches Some(set) ==> storage.marked_all(marks).signals == Some(
            set.marked_all(marks),
        ),
    decreases marks.len(),
{
    if marks.len() > 0 {
        lemma_marks_keep_installation(storage, marks.drop_last());
    }
}

/// A second installation on one request fails, whatever was marked or
/// attached in between, while a first one succeeds whatever unrelated
/// values the storage holds.
pub proof fn lemma_second_install_fails(storage: RequestStorage, marks: Seq<HeaderKind>)
    requires
        storage.signals is None,
    ensures
        storage.installed() is Some,
        storage.installed().unwrap().marked_all(marks).installed() is None,
{
    lemma_marks_keep_installation(storage.installed().unwrap(), marks);
}

/// From installation to collection: the set that comes back holds exactly
/// the kinds that were marked in between.
pub proof fn lemma_collected_marks(storage: RequestStorage, marks: Seq<HeaderKind>)
    requires
        storage.signals is None,
    ensures
        storage.installed().unwrap().marked_all(marks).collected() matches Some(set)
            && set.fired() == marks.to_set() && set.fired_in_order()
            == HeaderKind::canonical().filter(|kind: HeaderKind| marks.contains(kind)),
{
    let installed = storage.installed().unwrap();
    lemma_marks_keep_installation(installed, marks);
    lemma_marks_fired(marks);
    lemma_released_fired(SignalSet::armed().marked_all(marks));
}

} // verus!
