//! Queue selection: which of the device's queues serves each kind of
//! work, with dedicated queues preferred and graphics as the fallback.
//!
//! A queue appears as its capability flags and its position in the list
//! the device returned; the shell keeps the queue objects themselves in
//! that same order.

use vstd::prelude::*;

verus! {

/// The kind of work a caller asks a queue for.
#[derive(Clone, Copy, Debug, PartialEq, Eq, Structural)]
pub enum QueueType {
    GraphicsPresent,
    Graphics,
    Compute,
    Transfer,
}

/// The capabilities of one device queue.
#[derive(Clone, Copy, Debug, PartialEq, Eq, Structural)]
pub struct QueueDesc {
    pub graphics: bool,
    pub compute: bool,
    pub transfer: bool,
    pub present: bool,
}

/// A graphics queue that can also present to the surface.
pub open spec fn spec_is_graphics_present(d: QueueDesc) -> bool {
    d.graphics && d.present
}

/// Any graphics queue.
pub open spec fn spec_is_graphics(d: QueueDesc) -> bool {
    d.graphics
}

/// A compute queue that is not also a graphics queue: graphics-capable
/// queues are bucketed as graphics first.
pub open spec fn spec_is_dedicated_compute(d: QueueDesc) -> bool {
    d.compute && !d.graphics
}

/// A transfer-only queue.
pub open spec fn spec_is_dedicated_transfer(d: QueueDesc) -> bool {
    d.transfer && !d.graphics && !d.compute
}

/// Which bucket predicate a queue kind asks for first.
pub open spec fn spec_bucket_match(qt: QueueType, d: QueueDesc) -> bool {
    match qt {
        QueueType::GraphicsPresent => spec_is_graphics_present(d),
        QueueType::Graphics => spec_is_graphics(d),
        QueueType::Compute => spec_is_dedicated_compute(d),
        QueueType::Transfer => spec_is_dedicated_transfer(d),
    }
}

/// The first queue matching the kind's bucket, if any.
pub open spec fn spec_first(s: Seq<QueueDesc>, qt: QueueType) -> Option<int>
    decreases s.len(),
{
    if s.len() == 0 {
        Option::None
    } else if spec_bucket_match(qt, s[0]) {
        Some(0int)
    } else {
        match spec_first(s.skip(1), qt) {
            Some(i) => Some(i + 1),
            Option::None => Option::None,
        }
    }
}

/// The queue each kind of work resolves to: its own bucket first, then
/// the fallback chain — compute falls back to graphics, transfer to
/// compute and then graphics.
pub open spec fn spec_resolve(s: Seq<QueueDesc>, qt: QueueType) -> Option<int> {
    match qt {
        QueueType::GraphicsPresent => spec_first(s, QueueType::GraphicsPresent),
        QueueType::Graphics => spec_first(s, QueueType::Graphics),
        QueueType::Compute => match spec_first(s, QueueType::Compute) {
            Some(i) => Some(i),
            Option::None => spec_first(s, QueueType::Graphics),
        },
        QueueType::Transfer => match spec_first(s, QueueType::Transfer) {
            Some(i) => Some(i),
            Option::None => match spec_first(s, QueueType::Compute) {
                Some(i) => Some(i),
                Option::None => spec_first(s, QueueType::Graphics),
            },
        },
    }
}

/// The device's queues, in the order the device returned them.
pub struct Queues {
    descs: Vec<QueueDesc>,
}

impl Queues {
    /// The queue list this selection works over.
    pub closed spec fn spec_descs(&self) -> Seq<QueueDesc> {
        self.descs@
    }

    /// Wraps the queue capabilities reported by the device.
    pub fn new(descs: Vec<QueueDesc>) -> (q: Queues)
        ensures
            q.spec_descs() == descs@,
    {
        Queues { descs }
    }

    /// The position of the first queue matching the kind's own bucket.
    fn first(&self, qt: QueueType) -> (r: Option<usize>)
        ensures
            r matches Some(i) ==> Some(i as int) == spec_first(self.spec_descs(), qt),
            r is None ==> spec_first(self.spec_descs(), qt) is None,
    {
        let mut i: usize = 0;
        let len = self.descs.len();
        while i < len
            invariant
                i <= len,
                len == self.spec_descs().len(),
                forall|j: int| 0 <= j < i ==> !spec_bucket_match(qt, #[trigger] self.spec_descs()[j]),
            decreases len - i,
        {
            let d = self.descs[i];
            let matched = match qt {
                QueueType::GraphicsPresent => d.graphics && d.present,
                QueueType::Graphics => d.graphics,
                QueueType::Compute => d.compute && !d.graphics,
                QueueType::Transfer => d.transfer && !d.graphics && !d.compute,
            };
            if matched {
                proof {
                    lemma_first_characterization(self.spec_descs(), qt, i as int);
                }
                return Some(i);
            }
            i = i + 1;
        }
        proof {
            lemma_first_none(self.spec_descs(), qt);
        }
        Option::None
    }

    /// The queue to use for a kind of work: the dedicated bucket first,
    /// then the documented fallback chain; an error when nothing serves.
    pub fn get(&self, queue_type: QueueType) -> (r: Result<usize, &'static str>)
        ensures
            r matches Ok(i) ==> Some(i as int) == spec_resolve(self.spec_descs(), queue_type),
            r is Err ==> spec_resolve(self.spec_descs(), queue_type) is None,
    {
        match queue_type {
            QueueType::GraphicsPresent => match self.first(QueueType::GraphicsPresent) {
                Some(i) => Ok(i),
                Option::None => Err("Graphics queue supporting presentation was not found"),
            },
            QueueType::Graphics => match self.first(QueueType::Graphics) {
                Some(i) => Ok(i),
                Option::None => Err("Graphics queue was not found"),
            },
            QueueType::Compute => match self.first(QueueType::Compute) {
                Some(i) => Ok(i),
                Option::None => match self.first(QueueType::Graphics) {
                    Some(i) => Ok(i),
                    Option::None => Err("Compute queue was not found"),
                },
            },
            QueueType::Transfer => match self.first(QueueType::Transfer) {
                Some(i) => Ok(i),
                Option::None => match self.first(QueueType::Compute) {
                    Some(i) => Ok(i),
                    Option::None => match self.first(QueueType::Graphics) {
                        Some(i) => Ok(i),
                        Option::None => Err("Transfer queue was not found"),
                    },
                },
            },
        }
    }
}

/// If nothing before `i` matches and `s[i]` does, the first match is `i`.
proof fn lemma_first_characterization(s: Seq<QueueDesc>, qt: QueueType, i: int)
    requires
        0 <= i < s.len(),
        spec_bucket_match(qt, s[i]),
        forall|j: int| 0 <= j < i ==> !spec_bucket_match(qt, #[trigger] s[j]),
    ensures
        spec_first(s, qt) == Some(i),
    decreases i,
{
    if i == 0 {
    } else {
        assert(!spec_bucket_match(qt, s[0]));
        assert(s.skip(1)[i - 1] == s[i]);
        assert forall|j: int| 0 <= j < i - 1 implies !spec_bucket_match(
            qt,
            #[trigger] s.skip(1)[j],
        ) by {
            assert(s.skip(1)[j] == s[j + 1]);
        }
        lemma_first_characterization(s.skip(1), qt, i - 1);
    }
}

/// If nothing matches, there is no first match.
proof fn lemma_first_none(s: Seq<QueueDesc>, qt: QueueType)
    requires
        forall|j: int| 0 <= j < s.len() ==> !spec_bucket_match(qt, #[trigger] s[j]),
    ensures
        spec_first(s, qt) is None,
    decreases s.len(),
{
    if s.len() > 0 {
        assert forall|j: int| 0 <= j < s.skip(1).len() implies !spec_bucket_match(
            qt,
            #[trigger] s.skip(1)[j],
        ) by {
            assert(s.skip(1)[j] == s[j + 1]);
        }
        lemma_first_none(s.skip(1), qt);
    }
}

} // verus!
