//! The game engine: the snake's state and its one-tick transition.
//!
//! The board is a fixed 16 x 16 grid. A grid position is an index into the
//! flattened board, so every `u8` is a valid cell: `x = pos % 16`,
//! `y = pos / 16`. The engine owns the body, the heading and the apple;
//! whoever drives it performs the drawing and supplies the random bytes for
//! apple placement.

use vstd::prelude::*;

verus! {

/// Board width in cells.
pub const W: u8 = 16;

/// Board height in cells.
pub const H: u8 = 16;

/// Heading east (`x` grows).
pub const EAST: u8 = 0;

/// Heading south (`y` grows).
pub const SOUTH: u8 = 1;

/// Heading west (`x` shrinks).
pub const WEST: u8 = 2;

/// Heading north (`y` shrinks).
pub const NORTH: u8 = 3;

/// No two elements of `q` are equal.
pub open spec fn distinct_seq(q: Seq<u8>) -> bool {
    forall|i: int, j: int| 0 <= i < j < q.len() ==> q[i] != q[j]
}

/// Moving one cell from `head` in direction `dir` would leave the board.
pub open spec fn hits_wall(head: u8, dir: u8) -> bool {
    if dir == EAST {
        head % 16 == 15
    } else if dir == SOUTH {
        head >= 240
    } else if dir == WEST {
        head % 16 == 0
    } else {
        head < 16
    }
}

/// The cell one step from `head` in direction `dir` (meaningful only when
/// `!hits_wall(head, dir)`).
pub open spec fn moved_head(head: u8, dir: u8) -> u8 {
    if dir == EAST {
        (head + 1) as u8
    } else if dir == SOUTH {
        (head + 16) as u8
    } else if dir == WEST {
        (head - 1) as u8
    } else {
        (head - 16) as u8
    }
}

/// The body array after one step: `h` in front, the first `len` old
/// segments each moved back one slot, the rest untouched.
pub open spec fn shifted_body(b: Seq<u8>, len: int, h: u8) -> Seq<u8> {
    Seq::new(
        b.len(),
        |i: int|
            if i == 0 {
                h
            } else if i <= len {
                b[i - 1]
            } else {
                b[i]
            },
    )
}

/// What one tick of the engine did, and what the driver owes the screen.
#[derive(Clone, Copy, PartialEq, Eq, Structural, Debug)]
pub enum StepEvent {
    /// The snake left the board or bit itself: the game is over.
    Lost,
    /// The snake ate at full length: the game is won.
    Won,
    /// The snake ate and grew; the apple is stale and must be placed anew
    /// (its old tile, now under the head, is to be cleared first).
    Ate,
    /// An ordinary move; the tile at `vacated` is no longer occupied and is
    /// to be cleared.
    Moved { vacated: u8 },
}

/// The snake: its body (head first), the live length, the apple and the
/// current heading.
pub struct Snake {
    /// The whole board's worth of slots; only the first `len` are live.
    pub body: Vec<u8>,
    /// Number of live segments, at least 1; 255 is full length.
    pub len: u8,
    /// The apple's cell.
    pub apple: u8,
    /// The current heading, one of the four direction constants.
    pub dir: u8,
}

impl Snake {
    /// The cells the live segments occupy, head first.
    pub open spec fn occupied(self) -> Seq<u8> {
        self.body@.subrange(0, self.len as int)
    }

    /// The head's cell.
    pub open spec fn head_spec(self) -> u8 {
        self.body@[0]
    }

    /// Well-formedness: a full board of slots, at least one live segment, a
    /// valid heading, and no two live segments on the same cell.
    pub open spec fn wf(self) -> bool {
        &&& self.body@.len() == 256
        &&& 1 <= self.len
        &&& self.dir < 4
        &&& distinct_seq(self.occupied())
    }

    /// The apple's cell is not occupied by any live segment.
    pub open spec fn apple_free(self) -> bool {
        !self.occupied().contains(self.apple)
    }

    /// The starting state: one segment in the middle of the board, heading
    /// east, the apple provisionally in the top-left corner (free, but to be
    /// re-placed at random before play).
    pub fn new() -> (s: Snake)
        ensures
            s.wf(),
            s.len == 1,
            s.dir == EAST,
            s.head_spec() == 136,
            s.apple == 0,
            s.apple_free(),
    {
        let mut body: Vec<u8> = vec![0u8; 256];
        body[0] = 136;
        let s = Snake { body, len: 1, apple: 0, dir: EAST };
        proof {
            assert(s.occupied() =~= seq![136u8]);
        }
        s
    }

    /// The head's cell.
    pub fn head(&self) -> (h: u8)
        requires
            self.wf(),
        ensures
            h == self.head_spec(),
    {
        self.body[0]
    }

    /// Adopt heading `d` unless it is the exact reverse of the current
    /// heading; a reversal is ignored and the heading kept.
    pub fn set_direction(&mut self, d: u8)
        requires
            old(self).wf(),
            d < 4,
        ensures
            final(self).wf(),
            final(self).body == old(self).body,
            final(self).len == old(self).len,
            final(self).apple == old(self).apple,
            final(self).dir == (if d == (old(self).dir + 2) % 4 {
                old(self).dir
            } else {
                d
            }),
    {
        if d != (self.dir + 2) % 4 {
            self.dir = d;
        }
    }

    /// Move the apple to `r` if that cell is free; report whether it was.
    /// On success the apple is disjoint from every live segment; on failure
    /// nothing changes.
    pub fn try_place_apple(&mut self, r: u8) -> (ok: bool)
        requires
            old(self).wf(),
        ensures
            final(self).wf(),
            final(self).body == old(self).body,
            final(self).len == old(self).len,
            final(self).dir == old(self).dir,
            ok <==> !old(self).occupied().contains(r),
            ok ==> final(self).apple == r && final(self).apple_free(),
            !ok ==> final(self).apple == old(self).apple,
    {
        let n = self.len as usize;
        let mut i: usize = 0;
        while i < n
            invariant
                *self == *old(self),
                n == self.len as usize,
                self.wf(),
                i <= n,
                forall|k: int| 0 <= k < i ==> self.occupied()[k] != r,
            decreases n - i,
        {
            if self.body[i] == r {
                proof {
                    assert(self.occupied()[i as int] == r);
                }
                return false;
            }
            proof {
                assert(self.occupied()[i as int] == self.body@[i as int]);
            }
            i += 1;
        }
        self.apple = r;
        true
    }

    /// One tick: move the head one cell along the heading, shift the body,
    /// and settle what happened.
    ///
    /// Leaving the board or landing on a live segment loses (the state is
    /// left as it was). Landing on the apple at full length wins; landing on
    /// it below full length grows the snake by one, leaving the apple stale
    /// until it is placed anew. Any other move keeps the length and vacates
    /// the old tail cell, and the apple stays clear of the body.
    pub fn step(&mut self) -> (ev: StepEvent)
        requires
            old(self).wf(),
            old(self).apple_free(),
        ensures
            final(self).wf(),
            final(self).dir == old(self).dir,
            (ev == StepEvent::Lost) <==> (hits_wall(old(self).head_spec(), old(self).dir)
                || old(self).occupied().contains(
                moved_head(old(self).head_spec(), old(self).dir),
            )),
            ev == StepEvent::Lost ==> *final(self) == *old(self),
            ev != StepEvent::Lost ==> {
                let h = moved_head(old(self).head_spec(), old(self).dir);
                &&& final(self).body@ == shifted_body(old(self).body@, old(self).len as int, h)
                &&& final(self).apple == old(self).apple
                &&& ((ev == StepEvent::Won) <==> (h == old(self).apple && old(self).len == 255))
                &&& ((ev == StepEvent::Ate) <==> (h == old(self).apple && old(self).len < 255))
                &&& (ev == StepEvent::Ate ==> final(self).len == old(self).len + 1)
                &&& (ev != StepEvent::Ate ==> final(self).len == old(self).len)
                &&& (h != old(self).apple ==> ev == (StepEvent::Moved {
                    vacated: old(self).body@[old(self).len - 1],
                }) && final(self).apple_free())
            },
    {
        let head0 = self.body[0];
        let h: u8;
        if self.dir == EAST {
            if head0 % 16 == 15 {
                return StepEvent::Lost;
            }
            h = head0 + 1;
        } else if self.dir == SOUTH {
            if head0 >= 240 {
                return StepEvent::Lost;
            }
            h = head0 + 16;
        } else if self.dir == WEST {
            if head0 % 16 == 0 {
                return StepEvent::Lost;
            }
            h = head0 - 1;
        } else {
            if head0 < 16 {
                return StepEvent::Lost;
            }
            h = head0 - 16;
        }

        let n = self.len as usize;

        // Self-collision: the candidate head against every live segment,
        // the tail included.
        let mut i: usize = 0;
        while i < n
            invariant
                *self == *old(self),
                n == self.len as usize,
                self.wf(),
                h == moved_head(old(self).head_spec(), old(self).dir),
                i <= n,
                forall|k: int| 0 <= k < i ==> self.occupied()[k] != h,
            decreases n - i,
        {
            if self.body[i] == h {
                proof {
                    assert(self.occupied()[i as int] == h);
                }
                return StepEvent::Lost;
            }
            proof {
                assert(self.occupied()[i as int] == self.body@[i as int]);
            }
            i += 1;
        }
        proof {
            assert forall|k: int| 0 <= k < old(self).occupied().len() implies old(
                self,
            ).occupied()[k] != h by {}
            assert(!old(self).occupied().contains(h));
        }

        // Shift the body back to front so no live value is overwritten
        // before it has moved.
        let mut i: usize = n;
        while i > 0
            invariant
                i <= n,
                n == self.len as usize,
                self.len == old(self).len,
                self.apple == old(self).apple,
                self.dir == old(self).dir,
                self.body@.len() == 256,
                forall|j: int| 0 <= j <= i ==> self.body@[j] == old(self).body@[j],
                forall|j: int| i < j <= n ==> self.body@[j] == old(self).body@[j - 1],
                forall|j: int| n < j < 256 ==> self.body@[j] == old(self).body@[j],
            decreases i,
        {
            i -= 1;
            let v = self.body[i];
            self.body[i + 1] = v;
        }
        self.body[0] = h;
        proof {
            assert(self.body@ =~= shifted_body(old(self).body@, old(self).len as int, h));
        }

        if h == self.apple {
            if self.len == 255 {
                proof {
                    lemma_shift_occupied_distinct(old(self).body@, old(self).len as int, h, 255);
                    assert(self.occupied() =~= seq![h] + old(self).occupied().subrange(0, 254));
                }
                return StepEvent::Won;
            }
            self.len = self.len + 1;
            proof {
                lemma_shift_occupied_distinct(
                    old(self).body@,
                    old(self).len as int,
                    h,
                    old(self).len as int + 1,
                );
            }
            StepEvent::Ate
        } else {
            let vacated = self.body[n];
            proof {
                lemma_shift_occupied_distinct(
                    old(self).body@,
                    old(self).len as int,
                    h,
                    old(self).len as int,
                );
                assert(self.body@[n as int] == old(self).body@[n - 1]);
                assert forall|k: int| 0 <= k < self.occupied().len() implies self.occupied()[k]
                    != self.apple by {
                    if k > 0 {
                        assert(old(self).occupied()[k - 1] == old(self).body@[k - 1]);
                    }
                }
                assert(!self.occupied().contains(self.apple));
            }
            StepEvent::Moved { vacated }
        }
    }
}

/// After a shift that passed the collision check, the first `new_len` slots
/// are still pairwise distinct: they are `h` followed by a prefix of the old
/// live segments, `h` equal to none of them.
proof fn lemma_shift_occupied_distinct(b: Seq<u8>, len: int, h: u8, new_len: int)
    requires
        b.len() == 256,
        1 <= len <= 255,
        len <= new_len <= len + 1,
        new_len <= 256,
        distinct_seq(b.subrange(0, len)),
        !b.subrange(0, len).contains(h),
    ensures
        distinct_seq(shifted_body(b, len, h).subrange(0, new_len)),
{
    let s = shifted_body(b, len, h).subrange(0, new_len);
    assert forall|i: int, j: int| 0 <= i < j < s.len() implies s[i] != s[j] by {
        let old_occ = b.subrange(0, len);
        if i == 0 {
            assert(s[j] == b[j - 1]);
            assert(old_occ[j - 1] == b[j - 1]);
            assert(old_occ.contains(old_occ[j - 1]));
        } else {
            assert(s[i] == b[i - 1]);
            assert(s[j] == b[j - 1]);
            assert(old_occ[i - 1] == b[i - 1]);
            assert(old_occ[j - 1] == b[j - 1]);
        }
    }
}

} // verus!
