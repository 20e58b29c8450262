//! Naming and framing for the cross-process relay. Every process publishes
//! the control messages of its own viewers on a channel named after the
//! video, and each session subscribes to that channel. A frame on the relay
//! carries the id of the process that published it, so that a process can
//! leave out what it already delivered locally.
use vstd::prelude::*;
use vstd::string::{StrSliceExecFns, StringExecFns};
use crate::decimal::{digit_char, int_digits, is_digit, lemma_nat_digits_are_digits, nat_digits, push_i32, push_u64};
use crate::wire::opt_view;

verus! {

/// The relay channel of a video: `watchparty:video:<video id>`.
pub open spec fn video_channel(video_id: int) -> Seq<char> {
    "watchparty:video:"@ + int_digits(video_id)
}

/// The name of the relay channel on which the viewers of `video_id` meet.
pub fn get_video_channel(video_id: i32) -> (r: String)
    ensures
        r@ == video_channel(video_id as int),
{
    let mut out = String::from_str("watchparty:video:");
    push_i32(&mut out, video_id);
    out
}

/// The index of the first space in `s` at or after `i`, or -1 if there is none.
pub open spec fn space_index(s: Seq<char>, i: int) -> int
    decreases s.len() - i,
{
    if i < 0 || i >= s.len() {
        -1
    } else if s[i] == ' ' {
        i
    } else {
        space_index(s, i + 1)
    }
}

/// A relay frame: the publishing process's id in decimal, a space, the message.
pub open spec fn relay_frame(instance: nat, payload: Seq<char>) -> Seq<char> {
    nat_digits(instance) + seq![' '] + payload
}

/// The two parts of a frame, split at its first space.
pub open spec fn split_frame(s: Seq<char>) -> Option<(Seq<char>, Seq<char>)> {
    let k = space_index(s, 0);
    if k < 0 {
        None
    } else {
        Some((s.subrange(0, k), s.subrange(k + 1, s.len() as int)))
    }
}

/// Whether `s` is a non-empty run of decimal digits.
pub open spec fn is_numeral(s: Seq<char>) -> bool {
    s.len() > 0 && forall|k: int| 0 <= k < s.len() ==> is_digit(#[trigger] s[k])
}

/// The payload of a relay frame that process `instance` may pass on: that
/// of a frame whose sender field is a numeral other than `instance`'s own.
pub open spec fn accepted(instance: nat, frame: Seq<char>) -> Option<Seq<char>> {
    match split_frame(frame) {
        Some((origin, payload)) => if !is_numeral(origin) || origin == nat_digits(instance) {
            None
        } else {
            Some(payload)
        },
        None => None,
    }
}

proof fn lemma_space_index_skips(s: Seq<char>, i: int, k: int)
    requires
        0 <= i <= k < s.len(),
        s[k] == ' ',
        forall|j: int| i <= j < k ==> s[j] != ' ',
    ensures
        space_index(s, i) == k,
    decreases k - i,
{
    if i < k {
        lemma_space_index_skips(s, i + 1, k);
    }
}

/// A frame splits back into the process id and the message it was made of.
pub proof fn lemma_split_relay_frame(instance: nat, payload: Seq<char>)
    ensures
        split_frame(relay_frame(instance, payload)) == Some((nat_digits(instance), payload)),
{
    let d = nat_digits(instance);
    let s = relay_frame(instance, payload);
    lemma_nat_digits_are_digits(instance);
    assert forall|j: int| 0 <= j < d.len() implies s[j] != ' ' by {
        assert(is_digit(d[j]));
    }
    lemma_space_index_skips(s, 0, d.len() as int);
    assert(s.subrange(0, d.len() as int) =~= d);
    assert(s.subrange(d.len() as int + 1, s.len() as int) =~= payload);
}

proof fn lemma_digit_char_injective(a: int, b: int)
    requires
        0 <= a < 10,
        0 <= b < 10,
        digit_char(a) == digit_char(b),
    ensures
        a == b,
{
}

/// Distinct numbers have distinct numerals.
pub proof fn lemma_nat_digits_injective(a: nat, b: nat)
    requires
        nat_digits(a) == nat_digits(b),
    ensures
        a == b,
    decreases a,
{
    if a >= 10 {
        lemma_nat_digits_are_digits(a / 10);
    }
    if b >= 10 {
        lemma_nat_digits_are_digits(b / 10);
    }
    if a < 10 {
        assert(nat_digits(a) == seq![digit_char(a as int)]);
    } else {
        assert(nat_digits(a) == nat_digits(a / 10).push(digit_char((a % 10) as int)));
    }
    if b < 10 {
        assert(nat_digits(b) == seq![digit_char(b as int)]);
    } else {
        assert(nat_digits(b) == nat_digits(b / 10).push(digit_char((b % 10) as int)));
    }
    if a < 10 && b < 10 {
        assert(nat_digits(a)[0] == digit_char(a as int));
        assert(nat_digits(b)[0] == digit_char(b as int));
        lemma_digit_char_injective(a as int, b as int);
    } else if a < 10 || b < 10 {
        assert(nat_digits(a).len() != nat_digits(b).len());
    } else if a >= 10 && b >= 10 {
        assert(nat_digits(a).last() == digit_char((a % 10) as int));
        assert(nat_digits(b).last() == digit_char((b % 10) as int));
        lemma_digit_char_injective((a % 10) as int, (b % 10) as int);
        assert(nat_digits(a / 10) =~= nat_digits(a).drop_last());
        assert(nat_digits(b / 10) =~= nat_digits(b).drop_last());
        lemma_nat_digits_injective(a / 10, b / 10);
    }
}

/// A process never forwards a frame it published itself; it forwards the
/// message of every frame that another process published.
pub proof fn lemma_relay_origin_filter(instance: nat, publisher: nat, payload: Seq<char>)
    ensures
        accepted(instance, relay_frame(publisher, payload)) == if publisher == instance {
            None::<Seq<char>>
        } else {
            Some(payload)
        },
{
    lemma_split_relay_frame(publisher, payload);
    lemma_nat_digits_are_digits(publisher);
    if nat_digits(publisher) == nat_digits(instance) {
        lemma_nat_digits_injective(publisher, instance);
    }
}

/// The relay endpoint of one server process.
pub struct Relay {
    pub instance: u64,
}

impl Relay {
    /// The endpoint of the process with id `instance`.
    pub fn new(instance: u64) -> (r: Self)
        ensures
            r.instance == instance,
    {
        Relay { instance }
    }

    /// The frame that this process publishes for `payload`.
    pub fn frame(&self, payload: &str) -> (r: String)
        ensures
            r@ == relay_frame(self.instance as nat, payload@),
    {
        let mut out = String::new();
        push_u64(&mut out, self.instance);
        out.append(" ");
        out.append(payload);
        proof {
            reveal_strlit(" ");
            assert(out@ =~= relay_frame(self.instance as nat, payload@));
        }
        out
    }

    /// The message to forward to this process's viewers from a received frame,
    /// if any.
    pub fn accept(&self, frame: &str) -> (r: Option<String>)
        ensures
            opt_view(r) == accepted(self.instance as nat, frame@),
    {
        let n = frame.unicode_len();
        let mut i: usize = 0;
        let mut digits = true;
        while i < n && frame.get_char(i) != ' '
            invariant
                n == frame@.len(),
                i <= n,
                space_index(frame@, 0) == space_index(frame@, i as int),
                digits == forall|k: int| 0 <= k < i ==> is_digit(#[trigger] frame@[k]),
            decreases n - i,
        {
            let c = frame.get_char(i);
            let d = c == '0' || c == '1' || c == '2' || c == '3' || c == '4' || c == '5' || c
                == '6' || c == '7' || c == '8' || c == '9';
            proof {
                if digits && d {
                    assert forall|k: int| 0 <= k < i + 1 implies is_digit(#[trigger] frame@[k]) by {
                        if k == i {
                        }
                    }
                }
            }
            digits = digits && d;
            i = i + 1;
        }
        if i == n || i == 0 || !digits {
            proof {
                if i < n && i > 0 {
                    let origin = frame@.subrange(0, i as int);
                    assert(!is_numeral(origin)) by {
                        let k = choose|k: int| 0 <= k < i && !is_digit(#[trigger] frame@[k]);
                        assert(origin[k] == frame@[k]);
                    }
                }
            }
            return None;
        }
        let origin = String::from_str(frame.substring_char(0, i));
        proof {
            assert forall|k: int| 0 <= k < origin@.len() implies is_digit(#[trigger] origin@[k]) by {
                assert(origin@[k] == frame@[k]);
            }
        }
        let payload = String::from_str(frame.substring_char(i + 1, n));
        let mut own = String::new();
        push_u64(&mut own, self.instance);
        assert(own@ =~= nat_digits(self.instance as nat));
        if origin == own {
            None
        } else {
            Some(payload)
        }
    }
}

} // verus!
