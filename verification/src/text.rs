//! Small presentation-text computations: initials for a contact avatar,
//! the avatar colour index, and the rotating footer line.

use vstd::prelude::*;

use crate::strutil::{is_space, is_space_exec, trim_front, upper_of};
use vstd::string::StringSliceAdditionalSpecFns;

verus! {

/// The leading run of non-space characters.
pub open spec fn take_word(s: Seq<char>) -> Seq<char>
    decreases s.len(),
{
    if s.len() == 0 || is_space(s[0]) {
        Seq::empty()
    } else {
        seq![s[0]] + take_word(s.drop_first())
    }
}

/// What follows the leading run of non-space characters.
pub open spec fn skip_word(s: Seq<char>) -> Seq<char>
    decreases s.len(),
{
    if s.len() == 0 || is_space(s[0]) {
        s
    } else {
        skip_word(s.drop_first())
    }
}

/// The characters the initials are built from, before the upper-casing:
/// `?` for a blank name, the first two characters of a single word, and
/// the two words' initial characters otherwise.
pub open spec fn initials_core(s: Seq<char>) -> Seq<char> {
    let w1 = take_word(trim_front(s));
    let rest = trim_front(skip_word(trim_front(s)));
    let w2 = take_word(rest);
    if w1.len() == 0 {
        "?"@
    } else if w2.len() == 0 {
        w1.take(if w1.len() < 2 { w1.len() as int } else { 2 })
    } else {
        seq![w1[0], w2[0]]
    }
}

/// Scans past white space: afterwards `i` rests on the first non-space
/// character at or after `from`, and `trim_front` of the suffix is the
/// suffix at `i`.
fn scan_spaces(name: &str, from: usize) -> (i: usize)
    requires
        from <= name@.len(),
    ensures
        from <= i <= name@.len(),
        trim_front(name@.skip(from as int)) == name@.skip(i as int),
        i < name@.len() ==> !is_space(name@[i as int]),
{
    let len = name.unicode_len();
    let mut i: usize = from;
    while i < len && is_space_exec(name.get_char(i))
        invariant
            len == name@.len(),
            from <= i <= len,
            trim_front(name@.skip(from as int)) == trim_front(name@.skip(i as int)),
        decreases len - i,
    {
        proof {
            assert(name@.skip(i as int)[0] == name@[i as int]);
            assert(name@.skip(i as int).drop_first() =~= name@.skip(i + 1));
        }
        i = i + 1;
    }
    proof {
        if i < len {
            assert(name@.skip(i as int)[0] == name@[i as int]);
        } else {
            assert(name@.skip(len as int) =~= Seq::<char>::empty());
        }
    }
    i
}

/// Scans past a word: afterwards `i` rests on the first space at or after
/// `from`, the word is the slice in between, and the rest follows.
fn scan_word(name: &str, from: usize) -> (i: usize)
    requires
        from <= name@.len(),
    ensures
        from <= i <= name@.len(),
        take_word(name@.skip(from as int)) == name@.subrange(from as int, i as int),
        skip_word(name@.skip(from as int)) == name@.skip(i as int),
    decreases name@.len() - from,
{
    let ghost t = name@.skip(from as int);
    let len = name.unicode_len();
    let mut i: usize = from;
    proof {
        assert(t.take(0) =~= Seq::<char>::empty());
        assert(t.skip(0) =~= t);
    }
    while i < len && !is_space_exec(name.get_char(i))
        invariant
            len == name@.len(),
            t == name@.skip(from as int),
            from <= i <= len,
            take_word(t) == t.take(i - from as int) + take_word(t.skip(i - from as int)),
            skip_word(t) == skip_word(t.skip(i - from as int)),
        decreases len - i,
    {
        proof {
            let j = i - from as int;
            assert(t.skip(j)[0] == name@[i as int]);
            assert(t.skip(j).drop_first() =~= t.skip(j + 1));
            assert(t.take(j + 1) =~= t.take(j) + seq![t[j]]);
            assert(t[j] == name@[i as int]);
        }
        i = i + 1;
    }
    proof {
        let j = i - from as int;
        if i < len {
            assert(t.skip(j)[0] == name@[i as int]);
        } else {
            assert(t.skip(j) =~= Seq::<char>::empty());
        }
        assert(take_word(t.skip(j)) =~= Seq::<char>::empty());
        assert(take_word(t) =~= t.take(j));
        assert(t.take(j) =~= name@.subrange(from as int, i as int));
        assert(skip_word(t.skip(j)) == t.skip(j));
        assert(t.skip(j) =~= name@.skip(i as int));
    }
    i
}

/// The one- or two-letter tag shown in a contact's avatar: the upper-cased
/// initials of the first two words, the first two letters of a single
/// word, or `?` for a blank name.
pub fn get_initials(name: &str) -> (r: String)
    ensures
        ({
            let core = initials_core(name@);
            if take_word(trim_front(name@)).len() == 0 {
                r@ == "?"@
            } else {
                r@ == upper_of(core)
            }
        }),
{
    let len = name.unicode_len();
    let start1 = scan_spaces(name, 0);
    proof {
        assert(name@.skip(0) =~= name@);
    }
    if start1 >= len {
        return String::from_str("?");
    }
    let end1 = scan_word(name, start1);
    let start2 = scan_spaces(name, end1);
    proof {
        assert(take_word(name@.skip(start1 as int)).len() == end1 - start1);
    }
    if start2 >= len {
        let cut = if end1 - start1 < 2 {
            end1
        } else {
            start1 + 2
        };
        let word = name.substring_char(start1, cut);
        proof {
            let w1 = take_word(trim_front(name@));
            assert(w1 == name@.subrange(start1 as int, end1 as int));
            assert(take_word(name@.skip(start2 as int)) =~= Seq::<char>::empty());
            assert(word@ =~= w1.take(if w1.len() < 2 { w1.len() as int } else { 2 }));
        }
        return crate::strutil::to_upper(word);
    }
    let mut core: Vec<char> = Vec::new();
    core.push(name.get_char(start1));
    core.push(name.get_char(start2));
    let core_s = crate::strutil::chars_to_string(&core);
    proof {
        let w1 = take_word(trim_front(name@));
        let rest = trim_front(skip_word(trim_front(name@)));
        let w2 = take_word(rest);
        assert(w1 == name@.subrange(start1 as int, end1 as int));
        assert(rest == name@.skip(start2 as int));
        assert(w2.len() > 0) by {
            assert(!is_space(name@[start2 as int]));
            assert(rest[0] == name@[start2 as int]);
        }
        assert(w2[0] == rest[0]);
        assert(w1[0] == name@[start1 as int]);
        assert(core_s@ =~= seq![w1[0], w2[0]]);
        assert(core_s@ == initials_core(name@));
    }
    crate::strutil::to_upper(core_s.as_str())
}

/// The sum of a byte sequence.
pub open spec fn byte_sum(bs: Seq<u8>) -> int
    decreases bs.len(),
{
    if bs.len() == 0 {
        0
    } else {
        byte_sum(bs.drop_last()) + bs.last()
    }
}

/// Which of the eight avatar colours a name maps to: the sum of its bytes,
/// modulo eight.
pub fn avatar_color_index(name: &str) -> (r: usize)
    ensures
        r < 8,
        r as int == byte_sum(name.spec_bytes()) % 8,
{
    let bytes = name.as_bytes_vec();
    let mut sum: u128 = 0;
    let mut i: usize = 0;
    while i < bytes.len()
        invariant
            bytes@ == name.spec_bytes(),
            i <= bytes@.len(),
            sum == byte_sum(bytes@.take(i as int)),
            sum <= 255 * i,
        decreases bytes@.len() - i,
    {
        proof {
            assert(bytes@.take(i + 1 as int).drop_last() =~= bytes@.take(i as int));
            assert(bytes@.take(i + 1 as int).last() == bytes@[i as int]);
        }
        sum = sum + bytes[i] as u128;
        i = i + 1;
    }
    proof {
        assert(bytes@.take(bytes@.len() as int) =~= bytes@);
    }
    (sum % 8) as usize
}

/// The rotating footer line, one text per ten-second phase, typed in over
/// the first two seconds and typed out over the last two.
pub open spec fn footer_text(idx: int) -> Seq<char> {
    if idx == 0 {
        "v0.1.1-alpha"@
    } else if idx == 1 {
        "i(N) cod(E) w(E) trus(T)"@
    } else {
        "(c) by cannatoshi"@
    }
}

/// What the footer shows at frame `tick`: which text is on, and how much
/// of it, during the type-in, hold and type-out parts of its phase.
pub open spec fn footer_of(tick: u64) -> Seq<char> {
    let position = tick % 600;
    let idx = position / 200;
    let phase = position % 200;
    let text = footer_text(idx as int);
    let n = text.len() as int;
    if phase < 40 {
        text.take(if phase * n / 40 < n { phase * n / 40 } else { n })
    } else if phase < 160 {
        text
    } else {
        text.take(n - (if (phase - 160) * n / 40 < n { (phase - 160) * n / 40 } else { n }))
    }
}

/// The footer text for frame `tick`.
pub fn get_footer_text(tick: u64) -> (r: String)
    ensures
        r@ == footer_of(tick),
{
    proof {
        reveal_strlit("v0.1.1-alpha");
        reveal_strlit("i(N) cod(E) w(E) trus(T)");
        reveal_strlit("(c) by cannatoshi");
    }
    let position = tick % 600;
    let idx = position / 200;
    let phase = position % 200;
    let text: &str = if idx == 0 {
        "v0.1.1-alpha"
    } else if idx == 1 {
        "i(N) cod(E) w(E) trus(T)"
    } else {
        "(c) by cannatoshi"
    };
    let n = text.unicode_len();
    if phase < 40 {
        let shown = (phase as usize) * n / 40;
        let cut = if shown < n {
            shown
        } else {
            n
        };
        String::from_str(text.substring_char(0, cut))
    } else if phase < 160 {
        String::from_str(text)
    } else {
        let hidden = ((phase - 160) as usize) * n / 40;
        let cut = if hidden < n {
            hidden
        } else {
            n
        };
        String::from_str(text.substring_char(0, n - cut))
    }
}

} // verus!
