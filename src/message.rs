use vstd::prelude::*;
use vstd::utf8::encode_utf8;

use crate::markdown::{
    bold, bold_text, code_inline, code_inline_text, escape, escaped, underline, underline_text,
};
use crate::slots::{slots_view, Slot, SlotView};

verus! {

/// The most bytes a channel message may hold.
pub const MESSAGE_BUDGET: usize = 512;

/// The number of bytes of `s` in UTF-8.
pub open spec fn byte_len(s: Seq<char>) -> nat {
    encode_utf8(s).len()
}

/// The heading of a message: the district's name, bold and underlined.
pub open spec fn header_text(district_name: Seq<char>) -> Seq<char> {
    underline_text(bold_text(escaped(district_name)))
}

/// One slot's entry: the center in code style and its pincode on one line;
/// the doses left, the date and the vaccine, when named, on the next.
pub open spec fn entry_text(v: SlotView) -> Seq<char> {
    let base = "\n\n"@ + code_inline_text(v.center_name) + " \\| "@ + bold_text(
        escaped(v.pincode),
    ) + "\n"@ + bold_text(escaped(v.available_capacity)) + " doses \\| "@ + escaped(v.date);
    match v.vaccine_name {
        Some(name) => base + " \\| "@ + bold_text(escaped(name)),
        None => base,
    }
}

/// The entries of a slot list, in order.
pub open spec fn entries_text(vs: Seq<SlotView>) -> Seq<char>
    decreases vs.len(),
{
    if vs.len() == 0 {
        Seq::empty()
    } else {
        entries_text(vs.drop_last()) + entry_text(vs.last())
    }
}

/// The message that holds the first `k` slots.
pub open spec fn message_with(district_name: Seq<char>, vs: Seq<SlotView>, k: int) -> Seq<char> {
    header_text(district_name) + entries_text(vs.take(k))
}

/// How many slots a message keeps, counting on from `k`: each next slot is
/// taken while the message with it stays within `budget` bytes.
pub open spec fn kept_from(district_name: Seq<char>, vs: Seq<SlotView>, budget: nat, k: int) -> int
    decreases vs.len() - k,
{
    if 0 <= k < vs.len() && byte_len(message_with(district_name, vs, k + 1)) <= budget {
        kept_from(district_name, vs, budget, k + 1)
    } else {
        k
    }
}

/// How many slots a message keeps within `budget` bytes.
pub open spec fn kept(district_name: Seq<char>, vs: Seq<SlotView>, budget: nat) -> int {
    kept_from(district_name, vs, budget, 0)
}

/// The message sent for a district's slots; empty when even the heading is
/// over the budget.
pub open spec fn message_text(district_name: Seq<char>, vs: Seq<SlotView>, budget: nat) -> Seq<
    char,
> {
    if byte_len(header_text(district_name)) <= budget {
        message_with(district_name, vs, kept(district_name, vs, budget))
    } else {
        Seq::empty()
    }
}

pub proof fn lemma_byte_len_concat(a: Seq<char>, b: Seq<char>)
    ensures
        byte_len(a + b) == byte_len(a) + byte_len(b),
    decreases a.len(),
{
    if a.len() > 0 {
        assert((a + b).drop_first() =~= a.drop_first() + b);
        assert((a + b)[0] == a[0]);
        lemma_byte_len_concat(a.drop_first(), b);
    } else {
        assert(a + b =~= b);
    }
}

proof fn lemma_message_step(district_name: Seq<char>, vs: Seq<SlotView>, k: int)
    requires
        0 <= k < vs.len(),
    ensures
        message_with(district_name, vs, k + 1) == message_with(district_name, vs, k) + entry_text(
            vs[k],
        ),
        byte_len(message_with(district_name, vs, k + 1)) == byte_len(
            message_with(district_name, vs, k),
        ) + byte_len(entry_text(vs[k])),
{
    assert(vs.take(k + 1).drop_last() =~= vs.take(k));
    assert(vs.take(k + 1).last() == vs[k]);
    assert(message_with(district_name, vs, k + 1) =~= message_with(district_name, vs, k)
        + entry_text(vs[k]));
    lemma_byte_len_concat(message_with(district_name, vs, k), entry_text(vs[k]));
}

proof fn lemma_kept_from_bounds(district_name: Seq<char>, vs: Seq<SlotView>, budget: nat, k: int)
    requires
        0 <= k <= vs.len(),
        byte_len(message_with(district_name, vs, k)) <= budget,
    ensures
        k <= kept_from(district_name, vs, budget, k) <= vs.len(),
        byte_len(
            message_with(district_name, vs, kept_from(district_name, vs, budget, k)),
        ) <= budget,
    decreases vs.len() - k,
{
    if k < vs.len() && byte_len(message_with(district_name, vs, k + 1)) <= budget {
        lemma_kept_from_bounds(district_name, vs, budget, k + 1);
    }
}

/// A message whose full text would run over the budget stays within it: it
/// is cut after a whole entry and keeps the first slots only, fewer than
/// there are; and when even the heading is over the budget it is empty.
pub proof fn lemma_truncated_message_fits(district_name: Seq<char>, vs: Seq<SlotView>, budget: nat)
    requires
        byte_len(message_with(district_name, vs, vs.len() as int)) > budget,
    ensures
        byte_len(message_text(district_name, vs, budget)) <= budget,
        message_text(district_name, vs, budget) == Seq::<char>::empty() || (0 <= kept(
            district_name,
            vs,
            budget,
        ) < vs.len() && message_text(district_name, vs, budget) == header_text(district_name)
            + entries_text(vs.take(kept(district_name, vs, budget)))),
{
    assert(encode_utf8(Seq::<char>::empty()) =~= Seq::<u8>::empty());
    if byte_len(header_text(district_name)) <= budget {
        assert(vs.take(0) =~= Seq::<SlotView>::empty());
        assert(message_with(district_name, vs, 0) =~= header_text(district_name));
        lemma_kept_from_bounds(district_name, vs, budget, 0);
    }
}

/// The UTF-8 width of one character.
fn char_width(c: char) -> (r: usize)
    ensures
        r == vstd::utf8::encode_scalar(c as u32).len(),
{
    let v = c as u32;
    if v <= 0x7F {
        1
    } else if v <= 0x7FF {
        2
    } else if 0x800 <= v && v <= 0xFFFF && !(0xD800 <= v && v <= 0xDFFF) {
        3
    } else {
        4
    }
}

proof fn lemma_byte_len_push(s: Seq<char>, c: char)
    ensures
        byte_len(s.push(c)) == byte_len(s) + vstd::utf8::encode_scalar(c as u32).len(),
{
    lemma_byte_len_concat(s, seq![c]);
    assert(s.push(c) =~= s + seq![c]);
    assert(seq![c].drop_first() =~= Seq::<char>::empty());
    assert(encode_utf8(Seq::<char>::empty()) =~= Seq::<u8>::empty());
    assert(encode_utf8(seq![c]) == vstd::utf8::encode_scalar(seq![c][0] as u32) + encode_utf8(
        seq![c].drop_first(),
    ));
    assert(encode_utf8(seq![c]) =~= vstd::utf8::encode_scalar(c as u32));
}

/// The byte length of `s` when it is at most `room`; `None` when `s` is
/// longer.
fn measure(s: &str, room: usize) -> (r: Option<usize>)
    ensures
        match r {
            Some(n) => n == byte_len(s@) && n <= room,
            None => byte_len(s@) > room,
        },
{
    let n = s.unicode_len();
    let mut used: usize = 0;
    let mut i: usize = 0;
    while i < n
        invariant
            n == s@.len(),
            i <= n,
            used == byte_len(s@.take(i as int)),
            used <= room,
        decreases n - i,
    {
        let w = char_width(s.get_char(i));
        proof {
            assert(s@.take(i as int + 1) =~= s@.take(i as int).push(s@[i as int]));
            lemma_byte_len_push(s@.take(i as int), s@[i as int]);
        }
        if w > room - used {
            proof {
                assert(s@ =~= s@.take(i as int + 1) + s@.skip(i as int + 1));
                lemma_byte_len_concat(s@.take(i as int + 1), s@.skip(i as int + 1));
            }
            return None;
        }
        used = used + w;
        i = i + 1;
    }
    proof {
        assert(s@.take(n as int) =~= s@);
    }
    Some(used)
}

/// The heading of the message for a district.
pub fn header(district_name: &str) -> (r: String)
    ensures
        r@ == header_text(district_name@),
{
    let e = escape(district_name);
    let b = bold(e.as_str());
    underline(b.as_str())
}

/// The entry of one slot.
pub fn entry(slot: &Slot) -> (r: String)
    ensures
        r@ == entry_text(slot@),
{
    let mut e = String::from_str("\n\n");
    e.append(code_inline(slot.center_name.as_str()).as_str());
    e.append(" \\| ");
    e.append(bold(escape(slot.pincode.as_str()).as_str()).as_str());
    e.append("\n");
    e.append(bold(escape(slot.available_capacity.as_str()).as_str()).as_str());
    e.append(" doses \\| ");
    e.append(escape(slot.date.as_str()).as_str());
    match &slot.vaccine_name {
        Some(name) => {
            e.append(" \\| ");
            e.append(bold(escape(name.as_str()).as_str()).as_str());
        },
        None => {},
    }
    e
}

/// The message for a district's slots: the heading, then one entry per
/// slot in order, stopping before the first entry that would take the
/// message over `budget` bytes. Slots are dropped from the end only, and no
/// entry is cut. When the heading alone is over the budget the message is
/// empty, and there is nothing to send.
pub fn format_message(district_name: &str, slots: &Vec<Slot>, budget: usize) -> (r: String)
    ensures
        r@ == message_text(district_name@, slots_view(slots@), budget as nat),
        byte_len(r@) <= budget,
{
    let ghost vs = slots_view(slots@);
    let ghost name = district_name@;
    let mut msg = header(district_name);
    proof {
        assert(vs.take(0) =~= Seq::<SlotView>::empty());
        assert(message_with(name, vs, 0) =~= msg@);
    }
    let mut used: usize = match measure(msg.as_str(), budget) {
        Some(n) => n,
        None => {
            let empty = String::new();
            proof {
                assert(encode_utf8(empty@) =~= Seq::<u8>::empty());
            }
            return empty;
        },
    };
    let n = slots.len();
    let mut i: usize = 0;
    while i < n
        invariant
            n == slots@.len() == vs.len(),
            vs == slots_view(slots@),
            name == district_name@,
            i <= n,
            msg@ == message_with(name, vs, i as int),
            used == byte_len(msg@),
            used <= budget,
            byte_len(header_text(name)) <= budget,
            kept(name, vs, budget as nat) == kept_from(name, vs, budget as nat, i as int),
        decreases n - i,
    {
        let e = entry(&slots[i]);
        proof {
            assert(vs[i as int] == slots@[i as int]@);
            lemma_message_step(name, vs, i as int);
        }
        match measure(e.as_str(), budget - used) {
            Some(w) => {
                msg.append(e.as_str());
                used = used + w;
                i = i + 1;
            },
            None => {
                return msg;
            },
        }
    }
    msg
}

/// The note sent to the operator when scanning starts.
pub fn start_text(started_at: &str) -> (r: String)
    ensures
        r@ == "Vaccine scanning started at "@ + code_inline_text(started_at@),
{
    let s = String::from_str("Vaccine scanning started at ");
    s.concat(code_inline(started_at).as_str())
}

} // verus!
