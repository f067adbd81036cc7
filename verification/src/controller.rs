//! Per-frame decisions of the render loop: digesting a batch of window
//! events, mapping held keys to camera movement, and composing the
//! per-chunk push constant in the system's one fixed operand order.
//!
//! The loop itself — polling the channel, reading the clock, driving the
//! device — lives in the shell; it feeds values in and performs what
//! these functions decide.

use vstd::prelude::*;

use crate::camera::{mult_of, trans_matrix_of, view_parts_of};
use crate::cg::spec_trans_entry;
use crate::mat::{spec_dot, Mat4};
use crate::rat::{fits_i64, Rat};
use crate::scene::ChunkIndex;
use crate::vec::Vec3;

verus! {

/// Key codes of the movement and control keys, as the shell assigns
/// them when translating platform key events.
pub const KEY_W: u32 = 1;

pub const KEY_A: u32 = 2;

pub const KEY_S: u32 = 3;

pub const KEY_D: u32 = 4;

pub const KEY_SPACE: u32 = 5;

pub const KEY_CTRL_LEFT: u32 = 6;

pub const KEY_Q: u32 = 7;

pub const KEY_E: u32 = 8;

pub const KEY_MINUS: u32 = 9;

pub const KEY_EQUAL: u32 = 10;

pub const KEY_ESCAPE: u32 = 11;

/// A window event, reduced to what the render loop reacts to.
#[derive(Clone, Copy, Debug, PartialEq, Eq, Structural)]
pub enum WindowEventModel {
    CloseRequested,
    Resized { width: u32, height: u32 },
    RedrawRequested,
    KeyboardInput { key: u32, pressed: bool, repeat: bool },
    Other,
}

/// Whether the batch asks the loop to stop: a close request occurs.
pub open spec fn spec_scan_close(s: Seq<WindowEventModel>) -> bool
    decreases s.len(),
{
    if s.len() == 0 {
        false
    } else if s[0] is CloseRequested {
        true
    } else {
        spec_scan_close(s.skip(1))
    }
}

/// Whether a redraw is requested before any close request.
pub open spec fn spec_scan_redraw(s: Seq<WindowEventModel>) -> bool
    decreases s.len(),
{
    if s.len() == 0 {
        false
    } else if s[0] is CloseRequested {
        false
    } else if s[0] is RedrawRequested {
        true
    } else {
        spec_scan_redraw(s.skip(1))
    }
}

/// The extent of the last resize before any close request, if one came.
pub open spec fn spec_scan_resized(s: Seq<WindowEventModel>) -> Option<(u32, u32)>
    decreases s.len(),
{
    if s.len() == 0 {
        Option::None
    } else {
        match s[0] {
            WindowEventModel::CloseRequested => Option::None,
            WindowEventModel::Resized { width, height } => match spec_scan_resized(s.skip(1)) {
                Some(r) => Some(r),
                Option::None => Some((width, height)),
            },
            _ => spec_scan_resized(s.skip(1)),
        }
    }
}

/// The key events before any close request, in arrival order, as
/// `(key, pressed, repeat)`.
pub open spec fn spec_scan_keys(s: Seq<WindowEventModel>) -> Seq<(u32, bool, bool)>
    decreases s.len(),
{
    if s.len() == 0 {
        Seq::empty()
    } else {
        match s[0] {
            WindowEventModel::CloseRequested => Seq::empty(),
            WindowEventModel::KeyboardInput { key, pressed, repeat } => seq![(key, pressed, repeat)]
                + spec_scan_keys(s.skip(1)),
            _ => spec_scan_keys(s.skip(1)),
        }
    }
}

/// What one batch of window events amounts to.
pub struct EventScan {
    pub close: bool,
    pub redraw: bool,
    pub resized: Option<(u32, u32)>,
    pub keys: Vec<(u32, bool, bool)>,
}

/// Digests the events received since the last tick, in order, stopping
/// at the first close request as the loop itself would.
pub fn scan_events(events: &Vec<WindowEventModel>) -> (r: EventScan)
    ensures
        r.close == spec_scan_close(events@),
        r.redraw == spec_scan_redraw(events@),
        r.resized == spec_scan_resized(events@),
        r.keys@ == spec_scan_keys(events@),
{
    let r = scan_events_from(events, 0);
    proof {
        assert(events@.skip(0) =~= events@);
    }
    r
}

/// Digests the batch's tail starting at position `i`.
fn scan_events_from(events: &Vec<WindowEventModel>, i: usize) -> (r: EventScan)
    requires
        i <= events@.len(),
    ensures
        r.close == spec_scan_close(events@.skip(i as int)),
        r.redraw == spec_scan_redraw(events@.skip(i as int)),
        r.resized == spec_scan_resized(events@.skip(i as int)),
        r.keys@ == spec_scan_keys(events@.skip(i as int)),
    decreases events@.len() - i,
{
    if i == events.len() {
        let r = EventScan { close: false, redraw: false, resized: Option::None, keys: Vec::new() };
        proof {
            assert(events@.skip(i as int).len() == 0);
            assert(r.keys@ =~= spec_scan_keys(events@.skip(i as int)));
        }
        return r;
    }
    let ghost tail = events@.skip(i as int);
    proof {
        assert(tail[0] == events@[i as int]);
        assert(tail.skip(1) =~= events@.skip(i + 1));
    }
    match events[i] {
        WindowEventModel::CloseRequested => {
            let r = EventScan {
                close: true,
                redraw: false,
                resized: Option::None,
                keys: Vec::new(),
            };
            proof {
                assert(r.keys@ =~= spec_scan_keys(tail));
            }
            r
        },
        WindowEventModel::Resized { width, height } => {
            let mut r = scan_events_from(events, i + 1);
            if r.resized.is_none() {
                r.resized = Some((width, height));
            }
            r
        },
        WindowEventModel::RedrawRequested => {
            let mut r = scan_events_from(events, i + 1);
            r.redraw = true;
            r
        },
        WindowEventModel::KeyboardInput { key, pressed, repeat } => {
            let mut r = scan_events_from(events, i + 1);
            r.keys.insert(0, (key, pressed, repeat));
            proof {
                assert(r.keys@ =~= seq![(key, pressed, repeat)] + spec_scan_keys(
                    events@.skip(i + 1),
                ));
            }
            r
        },
        WindowEventModel::Other => scan_events_from(events, i + 1),
    }
}

/// The camera move a held key asks for, half a unit along one local
/// axis, or nothing for keys that do not move the camera.
pub open spec fn spec_movement_delta(key: u32) -> Option<Vec3> {
    let h = Rat { n: 1, d: 2 };
    let nh = Rat { n: -1i64, d: 2 };
    let z = Rat { n: 0, d: 1 };
    if key == KEY_W {
        Some(Vec3 { x: z, y: h, z: z })
    } else if key == KEY_S {
        Some(Vec3 { x: z, y: nh, z: z })
    } else if key == KEY_A {
        Some(Vec3 { x: nh, y: z, z: z })
    } else if key == KEY_D {
        Some(Vec3 { x: h, y: z, z: z })
    } else if key == KEY_SPACE {
        Some(Vec3 { x: z, y: z, z: h })
    } else if key == KEY_CTRL_LEFT {
        Some(Vec3 { x: z, y: z, z: nh })
    } else {
        Option::None
    }
}

/// The camera move a held key asks for.
pub fn movement_delta(key: u32) -> (r: Option<Vec3>)
    ensures
        r == spec_movement_delta(key),
        r matches Some(v) ==> v.wf(),
{
    let h = Rat::new(1, 2);
    let nh = Rat::new(-1, 2);
    let z = Rat::zero();
    if key == KEY_W {
        Some(Vec3::new(z, h, z))
    } else if key == KEY_S {
        Some(Vec3::new(z, nh, z))
    } else if key == KEY_A {
        Some(Vec3::new(nh, z, z))
    } else if key == KEY_D {
        Some(Vec3::new(h, z, z))
    } else if key == KEY_SPACE {
        Some(Vec3::new(z, z, h))
    } else if key == KEY_CTRL_LEFT {
        Some(Vec3::new(z, z, nh))
    } else {
        Option::None
    }
}

/// The world-space origin of a chunk: its grid index scaled by the chunk
/// side length, when that still fits the scalar representation.
pub open spec fn spec_chunk_origin(idx: ChunkIndex) -> Option<Vec3> {
    if fits_i64(32 * idx.0) && fits_i64(32 * idx.1) && fits_i64(32 * idx.2) {
        Some(
            Vec3 {
                x: Rat { n: (32 * idx.0) as i64, d: 1 },
                y: Rat { n: (32 * idx.1) as i64, d: 1 },
                z: Rat { n: (32 * idx.2) as i64, d: 1 },
            },
        )
    } else {
        Option::None
    }
}

/// The world-space origin of a chunk, `None` when the index is too far
/// out for the scalar representation.
pub fn chunk_origin(idx: ChunkIndex) -> (r: Option<Vec3>)
    ensures
        r == spec_chunk_origin(idx),
        r matches Some(v) ==> v.wf(),
{
    let lo: i64 = i64::MIN / 32;
    let hi: i64 = i64::MAX / 32;
    if lo <= idx.0 && idx.0 <= hi && lo <= idx.1 && idx.1 <= hi && lo <= idx.2 && idx.2 <= hi {
        Some(
            Vec3::new(
                Rat::from_int(32 * idx.0),
                Rat::from_int(32 * idx.1),
                Rat::from_int(32 * idx.2),
            ),
        )
    } else {
        Option::None
    }
}

/// `m` is the transpose of `a`.
pub open spec fn transpose_of(a: Mat4, m: Mat4) -> bool {
    m.wf() && forall|i: int, j: int|
        0 <= i < 4 && 0 <= j < 4 ==> #[trigger] m.idx(i, j) == a.idx(j, i)
}

/// Composes the per-draw matrix in the system's one operand order:
/// `projection * view * model`, transposed last for the upload
/// convention. `None` exactly when an entry of one of the two products
/// no longer fits the scalar representation.
pub fn compose_pvm(projection: &Mat4, view: &Mat4, model: &Mat4) -> (r: Option<Mat4>)
    requires
        projection.wf(),
        view.wf(),
        model.wf(),
    ensures
        r matches Some(m) ==> exists|pv: Mat4, pvm: Mat4|
            #![trigger mult_of(*projection, *view, pv), mult_of(pv, *model, pvm)]
            mult_of(*projection, *view, pv) && mult_of(pv, *model, pvm) && transpose_of(pvm, m),
        r is None ==> (exists|i: int, j: int|
            0 <= i < 4 && 0 <= j < 4 && (#[trigger] spec_dot(*projection, *view, i, j)) is None)
            || (exists|pv: Mat4|
            #[trigger] mult_of(*projection, *view, pv) && exists|i: int, j: int|
                0 <= i < 4 && 0 <= j < 4 && (#[trigger] spec_dot(pv, *model, i, j)) is None),
{
    let pv = match projection.mult(view) {
        Some(m) => m,
        Option::None => {
            proof {
                assert(!(forall|i: int, j: int|
                    0 <= i < 4 && 0 <= j < 4 ==> (#[trigger] spec_dot(
                        *projection,
                        *view,
                        i,
                        j,
                    )) is Some));
                let (i, j) = choose|i: int, j: int|
                    !(0 <= i < 4 && 0 <= j < 4 ==> (#[trigger] spec_dot(
                        *projection,
                        *view,
                        i,
                        j,
                    )) is Some);
                assert(0 <= i < 4 && 0 <= j < 4 && spec_dot(*projection, *view, i, j) is None);
            }
            return Option::None;
        },
    };
    let pvm = match pv.mult(model) {
        Some(m) => m,
        Option::None => {
            proof {
                assert(mult_of(*projection, *view, pv));
                let (i, j) = choose|i: int, j: int|
                    !(0 <= i < 4 && 0 <= j < 4 ==> (#[trigger] spec_dot(pv, *model, i, j)) is Some);
                assert(0 <= i < 4 && 0 <= j < 4 && spec_dot(pv, *model, i, j) is None);
            }
            return Option::None;
        },
    };
    let m = pvm.trans();
    proof {
        assert(mult_of(*projection, *view, pv) && mult_of(pv, *model, pvm) && transpose_of(pvm, m));
    }
    Some(m)
}

} // verus!
