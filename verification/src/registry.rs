//! The series registry: the mutable, in-memory collection of loaded
//! series, keyed by identity, together with the subscribers that the
//! "paint chosen" event fans out to.
//!
//! Subscribers are modelled as numbered slots handed out in subscription
//! order: `choose_paint` computes the dispatch list — one notification per
//! subscriber, in subscription order, each carrying the same paint — and
//! the host invokes each subscriber's callback with it.

use vstd::prelude::*;

use crate::document::parse_document;
use crate::document::parse_document_spec;
use crate::paint::PaintSpec;
use crate::series::Series;
use crate::series::SeriesIdentity;
use crate::series::SeriesIdentityV;
use crate::series::SeriesV;

verus! {

/// The outcome of `Registry::add_series`.
#[derive(Clone, Copy, Debug, PartialEq, Eq, Structural)]
pub enum AddResult {
    /// The series was inserted.
    Accepted,
    /// The registry is unchanged.
    Rejected(Rejection),
}

/// Why an `add_series` call was rejected.
#[derive(Clone, Copy, Debug, PartialEq, Eq, Structural)]
pub enum Rejection {
    /// A series of the same identity is already registered.
    Duplicate,
}

/// The outcome of `Registry::remove_series`.
#[derive(Clone, Copy, Debug, PartialEq, Eq, Structural)]
pub enum RemoveResult {
    /// The series of that identity was removed.
    Removed,
    /// No series of that identity was registered; nothing changed.
    NotFound,
}

/// One entry of a dispatch list: which subscriber to invoke, with which
/// paint.
#[derive(Clone, Debug)]
pub struct Notification {
    pub subscriber: usize,
    pub paint: PaintSpec,
}

/// Whether some series in `ss` carries the identity `id`.
pub open spec fn has_series_identity(ss: Seq<SeriesV>, id: SeriesIdentityV) -> bool {
    exists|i: int| 0 <= i < ss.len() && ss[i].identity == id
}

/// The mathematical value of a `Registry`.
pub ghost struct RegistryV {
    pub series: Seq<SeriesV>,
    pub subscribers: nat,
}

/// One step of the loading policy: an unreadable text (`None`), an
/// unparsable one, or one whose identity is already present is skipped
/// with a warning at its index; otherwise its series is registered.
pub open spec fn load_step(reg: RegistryV, text: Option<Seq<char>>, i: int) -> (
    RegistryV,
    Seq<usize>,
) {
    match text {
        None => (reg, seq![i as usize]),
        Some(t) => match parse_document_spec(t) {
            Err(_) => (reg, seq![i as usize]),
            Ok(sv) => if has_series_identity(reg.series, sv.identity) {
                (reg, seq![i as usize])
            } else {
                (
                    RegistryV { series: reg.series.push(sv), subscribers: reg.subscribers },
                    Seq::empty(),
                )
            },
        },
    }
}

/// The loading policy folded over the texts from index `i` on: the final
/// registry and the warned indices, in order.
pub open spec fn load_fold(reg: RegistryV, texts: Seq<Option<Seq<char>>>, i: int) -> (
    RegistryV,
    Seq<usize>,
)
    decreases texts.len() - i,
{
    if i < 0 || i >= texts.len() {
        (reg, Seq::empty())
    } else {
        let step = load_step(reg, texts[i], i);
        let rest = load_fold(step.0, texts, i + 1);
        (rest.0, step.1 + rest.1)
    }
}

impl RegistryV {
    /// No two series share an identity, and each series' names are unique.
    pub open spec fn wf(self) -> bool {
        &&& forall|i: int, j: int|
            0 <= i < j < self.series.len() ==> (#[trigger] self.series[i]).identity != (
            #[trigger] self.series[j]).identity
        &&& forall|i: int| 0 <= i < self.series.len() ==> (#[trigger] self.series[i]).wf()
    }
}

/// The in-memory set of loaded series plus the paint-selection
/// subscribers.
pub struct Registry {
    series: Vec<Series>,
    subscriber_count: usize,
}

impl View for Registry {
    type V = RegistryV;

    closed spec fn view(&self) -> RegistryV {
        RegistryV {
            series: self.series@.map(|i: int, s: Series| s@),
            subscribers: self.subscriber_count as nat,
        }
    }
}

impl Registry {
    /// An empty registry with no subscribers.
    pub fn new() -> (r: Registry)
        ensures
            r@.series.len() == 0,
            r@.subscribers == 0,
            r@.wf(),
    {
        let r = Registry { series: Vec::new(), subscriber_count: 0 };
        proof {
            assert(r@.series =~= Seq::<SeriesV>::empty());
        }
        r
    }

    /// How many series are registered.
    pub fn series_count(&self) -> (r: usize)
        ensures
            r == self@.series.len(),
    {
        self.series.len()
    }

    /// The series at one position of the insertion order.
    pub fn series_at(&self, i: usize) -> (r: &Series)
        requires
            i < self@.series.len(),
        ensures
            r@ == self@.series[i as int],
    {
        proof {
            assert(self@.series[i as int] == self.series@[i as int]@);
        }
        &self.series[i]
    }

    /// Whether a series of identity `id` is registered.
    pub fn contains_series(&self, id: &SeriesIdentity) -> (r: bool)
        ensures
            r == has_series_identity(self@.series, id@),
    {
        let n = self.series.len();
        let mut i: usize = 0;
        while i < n
            invariant
                n == self@.series.len(),
                i <= n,
                self@.series.len() == self.series@.len(),
                self@.series == self.series@.map(|k: int, s: Series| s@),
                forall|j: int| 0 <= j < i ==> (#[trigger] self@.series[j]).identity != id@,
            decreases n - i,
        {
            proof {
                assert(self@.series[i as int] == self.series@[i as int]@);
            }
            if self.series[i].identity().matches(id) {
                return true;
            }
            i += 1;
        }
        proof {
            if has_series_identity(self@.series, id@) {
                let j = choose|j: int|
                    0 <= j < self@.series.len() && self@.series[j].identity == id@;
            }
        }
        false
    }

    /// The registered series of identity `id`, if any.
    pub fn get_series(&self, id: &SeriesIdentity) -> (r: Option<&Series>)
        ensures
            match r {
                Some(s) => {
                    &&& has_series_identity(self@.series, id@)
                    &&& s@.identity == id@
                    &&& exists|i: int| 0 <= i < self@.series.len() && self@.series[i] == s@
                },
                None => !has_series_identity(self@.series, id@),
            },
    {
        let n = self.series.len();
        let mut i: usize = 0;
        while i < n
            invariant
                n == self@.series.len(),
                i <= n,
                self@.series.len() == self.series@.len(),
                self@.series == self.series@.map(|k: int, s: Series| s@),
                forall|j: int| 0 <= j < i ==> (#[trigger] self@.series[j]).identity != id@,
            decreases n - i,
        {
            proof {
                assert(self@.series[i as int] == self.series@[i as int]@);
            }
            if self.series[i].identity().matches(id) {
                return Some(&self.series[i]);
            }
            i += 1;
        }
        proof {
            if has_series_identity(self@.series, id@) {
                let j = choose|j: int|
                    0 <= j < self@.series.len() && self@.series[j].identity == id@;
            }
        }
        None
    }

    /// Registers a series.  A series whose identity is already present is
    /// rejected: the registry is unchanged and no event is fired.
    pub fn add_series(&mut self, series: Series) -> (r: AddResult)
        requires
            old(self)@.wf(),
            series@.wf(),
        ensures
            final(self)@.wf(),
            final(self)@.subscribers == old(self)@.subscribers,
            if has_series_identity(old(self)@.series, series@.identity) {
                r == AddResult::Rejected(Rejection::Duplicate) && final(self)@.series == old(
                    self,
                )@.series
            } else {
                r == AddResult::Accepted && final(self)@.series == old(self)@.series.push(series@)
            },
    {
        if self.contains_series(series.identity()) {
            return AddResult::Rejected(Rejection::Duplicate);
        }
        let ghost pre = self@.series;
        let ghost sv = series@;
        self.series.push(series);
        proof {
            assert(self@.series =~= pre.push(sv));
            assert forall|i: int, j: int|
                0 <= i < j < self@.series.len() implies (#[trigger] self@.series[i]).identity != (
            #[trigger] self@.series[j]).identity by {
                if j == self@.series.len() - 1 {
                    if self@.series[i].identity == sv.identity {
                        assert(has_series_identity(pre, sv.identity));
                    }
                }
            }
        }
        AddResult::Accepted
    }

    /// Deregisters the series of identity `id`.  Removal of an absent
    /// identity is reported, not silently ignored: callers rely on the
    /// distinction for their own bookkeeping.
    pub fn remove_series(&mut self, id: &SeriesIdentity) -> (r: RemoveResult)
        requires
            old(self)@.wf(),
        ensures
            final(self)@.wf(),
            final(self)@.subscribers == old(self)@.subscribers,
            if has_series_identity(old(self)@.series, id@) {
                r == RemoveResult::Removed && exists|k: int|
                    0 <= k < old(self)@.series.len() && (#[trigger] old(self)@.series[k]).identity
                        == id@ && final(self)@.series == old(self)@.series.remove(k)
            } else {
                r == RemoveResult::NotFound && final(self)@.series == old(self)@.series
            },
            !has_series_identity(final(self)@.series, id@),
    {
        let n = self.series.len();
        let mut i: usize = 0;
        while i < n
            invariant
                n == self@.series.len(),
                i <= n,
                self@.series.len() == self.series@.len(),
                self@.series == self.series@.map(|k: int, s: Series| s@),
                self@ == old(self)@,
                old(self)@.wf(),
                forall|j: int| 0 <= j < i ==> (#[trigger] self@.series[j]).identity != id@,
            decreases n - i,
        {
            proof {
                assert(self@.series[i as int] == self.series@[i as int]@);
            }
            if self.series[i].identity().matches(id) {
                let ghost pre = self@.series;
                self.series.remove(i);
                proof {
                    assert(self@.series =~= pre.remove(i as int));
                    assert forall|a: int, b: int|
                        0 <= a < b < self@.series.len() implies (
                    #[trigger] self@.series[a]).identity != (#[trigger] self@.series[b]).identity
                        by {
                        assert(self@.series[a] == if a < i {
                            pre[a]
                        } else {
                            pre[a + 1]
                        });
                        assert(self@.series[b] == if b < i {
                            pre[b]
                        } else {
                            pre[b + 1]
                        });
                    }
                    assert(!has_series_identity(self@.series, id@)) by {
                        if has_series_identity(self@.series, id@) {
                            let j = choose|j: int|
                                0 <= j < self@.series.len() && self@.series[j].identity == id@;
                            assert(self@.series[j] == if j < i {
                                pre[j]
                            } else {
                                pre[j + 1]
                            });
                        }
                    }
                }
                return RemoveResult::Removed;
            }
            i += 1;
        }
        proof {
            if has_series_identity(self@.series, id@) {
                let j = choose|j: int|
                    0 <= j < self@.series.len() && self@.series[j].identity == id@;
            }
        }
        RemoveResult::NotFound
    }

    /// Appends a subscriber slot and hands back its number; slots are
    /// numbered in subscription order and are never revoked.
    pub fn subscribe(&mut self) -> (id: usize)
        requires
            old(self)@.subscribers < usize::MAX,
        ensures
            id == old(self)@.subscribers,
            final(self)@.subscribers == old(self)@.subscribers + 1,
            final(self)@.series == old(self)@.series,
    {
        let id = self.subscriber_count;
        self.subscriber_count = self.subscriber_count + 1;
        id
    }

    /// Loads a batch of documents, best-effort: unreadable or malformed
    /// texts and duplicate identities are skipped with a warning, and the
    /// rest are registered.  The warnings are the indices of the skipped
    /// texts, in order.
    pub fn load_documents(&mut self, texts: &Vec<Option<String>>) -> (warnings: Vec<usize>)
        requires
            old(self)@.wf(),
        ensures
            final(self)@.wf(),
            final(self)@ == load_fold(old(self)@, texts.deep_view(), 0).0,
            warnings@ == load_fold(old(self)@, texts.deep_view(), 0).1,
            final(self)@.subscribers == old(self)@.subscribers,
    {
        let ghost t = texts.deep_view();
        let mut warnings: Vec<usize> = Vec::new();
        let n = texts.len();
        let mut i: usize = 0;
        while i < n
            invariant
                old(self)@.wf(),
                self@.wf(),
                n == texts@.len(),
                i <= n,
                t == texts.deep_view(),
                t.len() == n,
                self@.subscribers == old(self)@.subscribers,
                load_fold(old(self)@, t, 0).0 == load_fold(self@, t, i as int).0,
                load_fold(old(self)@, t, 0).1 == warnings@ + load_fold(self@, t, i as int).1,
            decreases n - i,
        {
            let ghost pre = self@;
            let ghost wpre = warnings@;
            proof {
                assert(t[i as int] == texts@[i as int].deep_view());
            }
            let failed: bool;
            match &texts[i] {
                None => {
                    failed = true;
                },
                Some(text) => {
                    match parse_document(text.as_str()) {
                        Err(_) => {
                            failed = true;
                        },
                        Ok(series) => {
                            match self.add_series(series) {
                                AddResult::Accepted => {
                                    failed = false;
                                },
                                AddResult::Rejected(_) => {
                                    failed = true;
                                },
                            }
                        },
                    }
                },
            }
            if failed {
                warnings.push(i);
            }
            proof {
                let step = load_step(pre, t[i as int], i as int);
                assert(self@ == step.0);
                if failed {
                    assert(warnings@ =~= wpre.push(i as usize));
                    assert(warnings@ =~= wpre + seq![i as usize]);
                    assert(step.1 == seq![i as usize]);
                } else {
                    assert(warnings@ == wpre);
                    assert(step.1 =~= Seq::<usize>::empty());
                }
                assert(load_fold(pre, t, i as int).0 == load_fold(self@, t, i + 1).0);
                assert(load_fold(pre, t, i as int).1 == step.1 + load_fold(self@, t, i + 1).1);
                assert(wpre + load_fold(pre, t, i as int).1 =~= warnings@ + load_fold(
                    self@,
                    t,
                    i + 1,
                ).1);
            }
            i += 1;
        }
        proof {
            assert(load_fold(self@, t, n as int).1 =~= Seq::<usize>::empty());
            assert(warnings@ + Seq::<usize>::empty() =~= warnings@);
        }
        warnings
    }

    /// The dispatch list for a chosen paint: one notification per
    /// subscriber, in subscription order, each carrying the same paint.
    pub fn choose_paint(&self, paint: &PaintSpec) -> (r: Vec<Notification>)
        ensures
            r@.len() == self@.subscribers,
            forall|k: int|
                0 <= k < r@.len() ==> (#[trigger] r@[k]).subscriber == k && r@[k].paint@ == paint@,
    {
        let mut out: Vec<Notification> = Vec::new();
        let n = self.subscriber_count;
        let mut i: usize = 0;
        while i < n
            invariant
                n == self@.subscribers,
                i <= n,
                out@.len() == i,
                forall|k: int|
                    0 <= k < i ==> (#[trigger] out@[k]).subscriber == k && out@[k].paint@
                        == paint@,
            decreases n - i,
        {
            out.push(Notification { subscriber: i, paint: paint.duplicate() });
            i += 1;
        }
        out
    }
}

} // verus!
