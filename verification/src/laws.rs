use vstd::prelude::*;

use crate::mode::{mode_name, PasteMode};
use crate::prefs::{
    lemma_setting_keys_distinct, preference_update, shortcut_rejection, shortcut_setting,
    is_shortcut_key, with_shortcut, ChangeView, PrefsView,
};
use crate::text::{
    all_digits, dec, digits_value, is_digit, is_ws, join_lines, leading_blank_count, normalized,
    first_line, parsed_usize, signed_dec, slot_title, split_lines, strip_blank_lines, trailing_blank_count, trim, trim_end, trim_start,
    unsigned_text_value,
};
use crate::slots::{after_paste, captured_slot, rotated, within_capacity, RangeStart, SlotView};
use crate::range::cursor_start;
use crate::script::{selection_bounds, selection_script_text};

verus! {

/// Slot rotation: after a new slot arrives the store holds at most
/// `capacity` slots (one more than before, unless that would pass the
/// capacity), the new slot first and then the earlier slots in their order.
pub proof fn lemma_rotation_keeps_newest_first(slots: Seq<SlotView>, new: SlotView, capacity: nat)
    ensures
        rotated(slots, new, capacity).len() == if slots.len() + 1 <= capacity {
            slots.len() + 1
        } else {
            capacity
        },
        capacity > 0 ==> rotated(slots, new, capacity)[0] == new,
        forall|i: int|
            1 <= i < rotated(slots, new, capacity).len() ==> #[trigger] rotated(
                slots,
                new,
                capacity,
            )[i] == slots[i - 1],
{
}

/// What a paste gives back of a capture: the slot just captured is the one
/// the next paste takes, and in `Consume` mode that paste leaves the earlier
/// slots as they were, cut to one less than the capacity.
pub proof fn lemma_capture_then_paste(slots: Seq<SlotView>, new: SlotView, capacity: nat)
    requires
        capacity > 0,
    ensures
        rotated(slots, new, capacity).len() > 0,
        rotated(slots, new, capacity)[0] == new,
        after_paste(rotated(slots, new, capacity), 0, PasteMode::Consume) == within_capacity(
            slots,
            (capacity - 1) as nat,
        ),
        after_paste(rotated(slots, new, capacity), 0, PasteMode::Keep) == rotated(
            slots,
            new,
            capacity,
        ),
{
    let r = rotated(slots, new, capacity);
    assert(r.remove(0) =~= within_capacity(slots, (capacity - 1) as nat));
}

/// A paste in `Keep` mode never changes the slots; one in `Consume` mode
/// removes exactly the pasted slot.
pub proof fn lemma_paste_modes(slots: Seq<SlotView>, index: int)
    requires
        0 <= index < slots.len(),
    ensures
        after_paste(slots, index, PasteMode::Keep) == slots,
        after_paste(slots, index, PasteMode::Consume).len() == slots.len() - 1,
        forall|i: int|
            0 <= i < index ==> #[trigger] after_paste(slots, index, PasteMode::Consume)[i]
                == slots[i],
        forall|i: int|
            index <= i < slots.len() - 1 ==> #[trigger] after_paste(
                slots,
                index,
                PasteMode::Consume,
            )[i] == slots[i + 1],
{
}

/// Capacity: cutting the slots to a capacity leaves at most that many, keeps
/// the newest in order, and changes nothing when they already fit.
pub proof fn lemma_within_capacity(slots: Seq<SlotView>, capacity: nat)
    ensures
        within_capacity(slots, capacity).len() <= capacity,
        within_capacity(slots, capacity).len() <= slots.len(),
        slots.len() <= capacity ==> within_capacity(slots, capacity) == slots,
        forall|i: int|
            0 <= i < within_capacity(slots, capacity).len() ==> #[trigger] within_capacity(
                slots,
                capacity,
            )[i] == slots[i],
{
}


/// A number written in decimal is a non-empty run of digits that stands for
/// the number again.
pub proof fn lemma_decimal_digits(n: nat)
    ensures
        all_digits(dec(n)),
        digits_value(dec(n)) == n,
    decreases n,
{
    if n >= 10 {
        lemma_decimal_digits(n / 10);
        let d = dec(n);
        assert(d.drop_last() =~= dec(n / 10));
        assert(d.last() as int - 48 == n % 10);
        assert((n / 10) * 10 + n % 10 == n) by (nonlinear_arith);
        assert(digits_value(d) == digits_value(d.drop_last()) * 10 + ((d.last() as int - 48) as nat));
        assert forall|i: int| 0 <= i < d.len() implies is_digit(#[trigger] d[i]) by {
            if i < d.len() - 1 {
                assert(d[i] == dec(n / 10)[i]);
            }
        }
    } else {
        let d = dec(n);
        assert(d.drop_last() =~= Seq::<char>::empty());
        assert(d.last() as int - 48 == n);
        assert(digits_value(d) == digits_value(d.drop_last()) * 10 + ((d.last() as int - 48) as nat));
        assert(digits_value(d.drop_last()) == 0);
    }
}

/// Writing a number in decimal and reading it back (as std's `parse` does)
/// gives the number.
pub proof fn lemma_decimal_reads_back(n: nat)
    ensures
        unsigned_text_value(dec(n)) == Some(n),
        n <= usize::MAX ==> parsed_usize(dec(n)) == Some(n as usize),
{
    lemma_decimal_digits(n);
    assert(is_digit(dec(n)[0]));
}


/// A capacity from 1 to 30, written in decimal, is taken as it is written.
pub proof fn lemma_capacity_setting_reads_back(p: PrefsView, c: usize)
    requires
        1 <= c <= 30,
    ensures
        preference_update(p, "slotCapacity"@, dec(c as nat)) == Ok::<
            (PrefsView, ChangeView),
            Seq<char>,
        >((PrefsView { slot_capacity: c, ..p }, ChangeView::SlotCapacity(c))),
{
    lemma_setting_keys_distinct();
    lemma_decimal_reads_back(c as nat);
}

/// A paste mode set by its name reads back as that mode.
pub proof fn lemma_paste_mode_setting_reads_back(p: PrefsView, m: PasteMode)
    ensures
        preference_update(p, "defaultPasteMode"@, mode_name(m)) == Ok::<
            (PrefsView, ChangeView),
            Seq<char>,
        >((PrefsView { default_paste_mode: mode_name(m), ..p }, ChangeView::PasteMode(m))),
{
    lemma_setting_keys_distinct();
    crate::mode::lemma_mode_name_roundtrip(m);
}

/// Sound switched on or off by `true` or `false` reads back as written.
pub proof fn lemma_sound_setting_reads_back(p: PrefsView, b: bool)
    ensures
        preference_update(p, "soundEnabled"@, if b {
            "true"@
        } else {
            "false"@
        }) == Ok::<(PrefsView, ChangeView), Seq<char>>(
            (PrefsView { sound_enabled: b, ..p }, ChangeView::Sound(b)),
        ),
{
    lemma_setting_keys_distinct();
    reveal_strlit("true");
    reveal_strlit("false");
    assert("true"@.len() != "false"@.len());
}

/// A shortcut setting that `global-hotkey` accepts reads back as written,
/// and the other shortcut settings keep their values.
pub proof fn lemma_shortcut_setting_reads_back(p: PrefsView, key: Seq<char>, value: Seq<char>)
    requires
        is_shortcut_key(key),
        shortcut_rejection(value) is None,
    ensures
        preference_update(p, key, value) == Ok::<(PrefsView, ChangeView), Seq<char>>(
            (
                with_shortcut(p, key, value),
                ChangeView::Shortcut { old: shortcut_setting(p, key), new: value },
            ),
        ),
        shortcut_setting(with_shortcut(p, key, value), key) == value,
        forall|other: Seq<char>|
            is_shortcut_key(other) && other != key ==> #[trigger] shortcut_setting(
                with_shortcut(p, key, value),
                other,
            ) == shortcut_setting(p, other),
{
    lemma_setting_keys_distinct();
}


/// Whether no line of `ls` holds a newline.
pub open spec fn newline_free(ls: Seq<Seq<char>>) -> bool {
    forall|i: int, j: int| 0 <= i < ls.len() && 0 <= j < ls[i].len() ==> #[trigger] ls[i][j] != '\n'
}

proof fn lemma_trim_end_shape(x: Seq<char>)
    ensures
        trim_end(x).len() <= x.len(),
        forall|i: int| 0 <= i < trim_end(x).len() ==> #[trigger] trim_end(x)[i] == x[i],
        trim_end(x).len() == 0 || !is_ws(trim_end(x).last()),
        trim_end(trim_end(x)) == trim_end(x),
    decreases x.len(),
{
    if x.len() > 0 && is_ws(x.last()) {
        lemma_trim_end_shape(x.drop_last());
    }
}

proof fn lemma_split_newline_free(s: Seq<char>)
    ensures
        split_lines(s).len() >= 1,
        newline_free(split_lines(s)),
    decreases s.len(),
{
    if s.len() > 0 {
        lemma_split_newline_free(s.drop_last());
        let prev = split_lines(s.drop_last());
        let cur = split_lines(s);
        if s.last() != '\n' {
            assert forall|i: int, j: int| 0 <= i < cur.len() && 0 <= j < cur[i].len() implies #[trigger] cur[i][j]
                != '\n' by {
                if i == prev.len() - 1 {
                    if j < prev.last().len() {
                        assert(cur[i][j] == prev[i][j]);
                    }
                } else {
                    assert(cur[i] == prev[i]);
                }
            }
        } else {
            assert forall|i: int, j: int| 0 <= i < cur.len() && 0 <= j < cur[i].len() implies #[trigger] cur[i][j]
                != '\n' by {
                assert(cur[i] == prev[i]);
            }
        }
    }
}

/// Appending newline-free text to `x` only lengthens its last line.
proof fn lemma_split_append_plain(x: Seq<char>, y: Seq<char>)
    requires
        forall|j: int| 0 <= j < y.len() ==> #[trigger] y[j] != '\n',
    ensures
        split_lines(x + y) == split_lines(x).update(
            split_lines(x).len() - 1,
            split_lines(x).last() + y,
        ),
    decreases y.len(),
{
    lemma_split_newline_free(x);
    if y.len() == 0 {
        assert(x + y =~= x);
        assert(split_lines(x).last() + y =~= split_lines(x).last());
        assert(split_lines(x).update(split_lines(x).len() - 1, split_lines(x).last())
            =~= split_lines(x));
    } else {
        let y0 = y.drop_last();
        lemma_split_append_plain(x, y0);
        assert((x + y).drop_last() =~= x + y0);
        assert((x + y).last() == y.last());
        let p = split_lines(x);
        assert(p.last() + y0 + seq![y.last()] =~= p.last() + y);
        assert((p.last() + y0).push(y.last()) =~= p.last() + y);
        assert(split_lines(x + y) == split_lines(x + y0).update(
            split_lines(x + y0).len() - 1,
            split_lines(x + y0).last().push(y.last()),
        ));
        assert(p.update(p.len() - 1, p.last() + y0).update(
            p.len() - 1,
            (p.last() + y0).push(y.last()),
        ) =~= p.update(p.len() - 1, p.last() + y));
    }
}

/// Splitting lines that were joined with newlines gives the lines back.
proof fn lemma_split_join(ls: Seq<Seq<char>>)
    requires
        ls.len() >= 1,
        newline_free(ls),
    ensures
        split_lines(join_lines(ls)) == ls,
    decreases ls.len(),
{
    if ls.len() == 1 {
        assert(ls[0] =~= Seq::<char>::empty() + ls[0]);
        assert forall|j: int| 0 <= j < ls[0].len() implies #[trigger] ls[0][j] != '\n' by {
            assert(ls[0][j] == ls[0][j]);
        }
        lemma_split_append_plain(Seq::<char>::empty(), ls[0]);
        assert(split_lines(Seq::<char>::empty()) =~= seq![Seq::<char>::empty()]);
        assert(seq![Seq::<char>::empty()].update(0, Seq::<char>::empty() + ls[0]) =~= ls);
    } else {
        let init = ls.drop_last();
        assert(newline_free(init)) by {
            assert forall|i: int, j: int| 0 <= i < init.len() && 0 <= j < init[i].len() implies #[trigger] init[i][j]
                != '\n' by {
                assert(init[i] == ls[i]);
            }
        }
        lemma_split_join(init);
        let a = join_lines(init);
        let b = ls.last();
        assert forall|j: int| 0 <= j < b.len() implies #[trigger] b[j] != '\n' by {
            assert(ls[ls.len() - 1][j] == b[j]);
        }
        assert(join_lines(ls) =~= a.push('\n') + b);
        lemma_split_append_plain(a.push('\n'), b);
        assert(a.push('\n').drop_last() =~= a);
        let q = split_lines(a.push('\n'));
        assert(q =~= init.push(Seq::<char>::empty()));
        assert(q.update(q.len() - 1, q.last() + b) =~= ls);
    }
}

proof fn lemma_leading_blank(ls: Seq<Seq<char>>)
    ensures
        leading_blank_count(ls) <= ls.len(),
        leading_blank_count(ls) < ls.len() ==> ls[leading_blank_count(ls) as int].len() > 0,
        forall|i: int| 0 <= i < leading_blank_count(ls) ==> #[trigger] ls[i].len() == 0,
    decreases ls.len(),
{
    if ls.len() > 0 && ls[0].len() == 0 {
        lemma_leading_blank(ls.drop_first());
        assert forall|i: int| 0 <= i < leading_blank_count(ls) implies #[trigger] ls[i].len() == 0 by {
            if i > 0 {
                assert(ls[i] == ls.drop_first()[i - 1]);
            }
        }
    }
}

proof fn lemma_trailing_blank(ls: Seq<Seq<char>>)
    ensures
        trailing_blank_count(ls) <= ls.len(),
        trailing_blank_count(ls) < ls.len() ==> ls[ls.len() - 1 - trailing_blank_count(ls)].len()
            > 0,
        forall|i: int| ls.len() - trailing_blank_count(ls) <= i < ls.len() ==> #[trigger] ls[i].len() == 0,
    decreases ls.len(),
{
    if ls.len() > 0 && ls.last().len() == 0 {
        lemma_trailing_blank(ls.drop_last());
        assert forall|i: int| ls.len() - trailing_blank_count(ls) <= i < ls.len() implies #[trigger] ls[i].len()
            == 0 by {
            if i < ls.len() - 1 {
                assert(ls[i] == ls.drop_last()[i]);
            }
        }
    }
}

/// The lines kept after stripping begin and end with a non-empty line.
proof fn lemma_strip_ends(ls: Seq<Seq<char>>)
    ensures
        strip_blank_lines(ls).len() > 0 ==> strip_blank_lines(ls)[0].len() > 0
            && strip_blank_lines(ls).last().len() > 0,
        strip_blank_lines(ls).len() + leading_blank_count(ls) <= ls.len(),
        forall|i: int|
            0 <= i < strip_blank_lines(ls).len() ==> #[trigger] strip_blank_lines(ls)[i]
                == ls[i + leading_blank_count(ls)],
{
    lemma_leading_blank(ls);
    let a = leading_blank_count(ls);
    let rest = ls.skip(a as int);
    lemma_trailing_blank(rest);
    let b = trailing_blank_count(rest);
    let st = strip_blank_lines(ls);
    if st.len() > 0 {
        assert(rest[0] == ls[a as int]);
        assert(st[0] == rest[0]);
        assert(st.last() == rest[rest.len() - 1 - b]);
    }
}

/// The lines that normalisation keeps, before they are joined.
pub open spec fn kept_lines(s: Seq<char>) -> Seq<Seq<char>> {
    strip_blank_lines(split_lines(s).map_values(|l: Seq<char>| trim_end(l)))
}

/// The kept lines hold no newline, end in no whitespace, and begin and end
/// with a non-empty line.
proof fn lemma_kept_lines(s: Seq<char>)
    ensures
        normalized(s) == join_lines(kept_lines(s)),
        newline_free(kept_lines(s)),
        forall|i: int|
            0 <= i < kept_lines(s).len() ==> #[trigger] trim_end(kept_lines(s)[i]) == kept_lines(
                s,
            )[i],
        kept_lines(s).len() > 0 ==> kept_lines(s)[0].len() > 0 && kept_lines(s).last().len() > 0,
{
    let l = split_lines(s);
    lemma_split_newline_free(s);
    let t = l.map_values(|x: Seq<char>| trim_end(x));
    let st = strip_blank_lines(t);
    lemma_strip_ends(t);
    assert forall|i: int| 0 <= i < st.len() implies #[trigger] trim_end(st[i]) == st[i] by {
        let k = i + leading_blank_count(t);
        assert(st[i] == t[k]);
        assert(t[k] == trim_end(l[k]));
        lemma_trim_end_shape(l[k]);
    }
    assert forall|i: int, j: int| 0 <= i < st.len() && 0 <= j < st[i].len() implies #[trigger] st[i][j]
        != '\n' by {
        let k = i + leading_blank_count(t);
        lemma_trim_end_shape(l[k]);
        assert(st[i] == t[k]);
        assert(st[i][j] == l[k][j]);
    }
}

/// Normalising twice is normalising once.
pub proof fn lemma_normalize_idempotent(s: Seq<char>)
    ensures
        normalized(normalized(s)) == normalized(s),
{
    lemma_kept_lines(s);
    let st = kept_lines(s);
    let out = normalized(s);
    if st.len() == 0 {
        assert(out =~= Seq::<char>::empty());
        assert(split_lines(out) =~= seq![Seq::<char>::empty()]);
        let t2 = split_lines(out).map_values(|x: Seq<char>| trim_end(x));
        assert(t2 =~= seq![Seq::<char>::empty()]);
        assert(t2[0].len() == 0);
        assert(leading_blank_count(t2.drop_first()) == 0);
        assert(leading_blank_count(t2) == 1);
        assert(strip_blank_lines(t2) =~= Seq::<Seq<char>>::empty());
    } else {
        lemma_split_join(st);
        let t2 = split_lines(out).map_values(|x: Seq<char>| trim_end(x));
        assert(t2 =~= st);
        assert(leading_blank_count(st) == 0);
        assert(st.skip(0) =~= st);
        assert(trailing_blank_count(st) == 0);
        assert(st.take(st.len() as int) =~= st);
        assert(strip_blank_lines(st) =~= st);
    }
}

/// The shape of normalised text: unless it is empty, its first and last
/// lines are not empty and no line ends in whitespace.
pub proof fn lemma_normalized_shape(s: Seq<char>)
    ensures
        normalized(s).len() > 0 ==> {
            let ls = split_lines(normalized(s));
            &&& ls.len() > 0
            &&& ls[0].len() > 0
            &&& ls.last().len() > 0
            &&& forall|i: int| 0 <= i < ls.len() ==> #[trigger] trim_end(ls[i]) == ls[i]
        },
{
    lemma_kept_lines(s);
    if kept_lines(s).len() > 0 {
        lemma_split_join(kept_lines(s));
    } else {
        assert(normalized(s) =~= Seq::<char>::empty());
    }
}


/// Whether every character of `x` is whitespace.
pub open spec fn all_ws(x: Seq<char>) -> bool {
    forall|i: int| 0 <= i < x.len() ==> is_ws(#[trigger] x[i])
}

proof fn lemma_trim_end_empty(x: Seq<char>)
    ensures
        trim_end(x).len() == 0 <==> all_ws(x),
    decreases x.len(),
{
    if x.len() > 0 {
        lemma_trim_end_empty(x.drop_last());
        if is_ws(x.last()) {
            assert(all_ws(x) <==> all_ws(x.drop_last())) by {
                if all_ws(x.drop_last()) {
                    assert forall|i: int| 0 <= i < x.len() implies is_ws(#[trigger] x[i]) by {
                        if i < x.len() - 1 {
                            assert(x[i] == x.drop_last()[i]);
                        }
                    }
                }
                if all_ws(x) {
                    assert forall|i: int| 0 <= i < x.drop_last().len() implies is_ws(
                        #[trigger] x.drop_last()[i],
                    ) by {
                        assert(x[i] == x.drop_last()[i]);
                    }
                }
            }
        } else {
            assert(!is_ws(x[x.len() - 1]));
        }
    }
}

proof fn lemma_trim_start_empty(x: Seq<char>)
    ensures
        trim_start(x).len() == 0 <==> all_ws(x),
    decreases x.len(),
{
    if x.len() > 0 {
        lemma_trim_start_empty(x.drop_first());
        if is_ws(x[0]) {
            assert(all_ws(x) <==> all_ws(x.drop_first())) by {
                if all_ws(x.drop_first()) {
                    assert forall|i: int| 0 <= i < x.len() implies is_ws(#[trigger] x[i]) by {
                        if i > 0 {
                            assert(x[i] == x.drop_first()[i - 1]);
                        }
                    }
                }
                if all_ws(x) {
                    assert forall|i: int| 0 <= i < x.drop_first().len() implies is_ws(
                        #[trigger] x.drop_first()[i],
                    ) by {
                        assert(x[i + 1] == x.drop_first()[i]);
                    }
                }
            }
        } else {
            assert(!is_ws(x[0]));
        }
    }
}

/// Whether every line of `ls` is whitespace only.
pub open spec fn all_lines_ws(ls: Seq<Seq<char>>) -> bool {
    forall|i: int| 0 <= i < ls.len() ==> all_ws(#[trigger] ls[i])
}

/// A text is whitespace only exactly when each of its lines is.
proof fn lemma_split_all_ws(s: Seq<char>)
    ensures
        all_ws(s) <==> all_lines_ws(split_lines(s)),
    decreases s.len(),
{
    lemma_split_newline_free(s);
    if s.len() == 0 {
        let l = split_lines(s);
        assert(l =~= seq![Seq::<char>::empty()]);
        assert(all_ws(l[0]));
    } else {
        let p = s.drop_last();
        let c = s.last();
        lemma_split_all_ws(p);
        lemma_split_newline_free(p);
        let lp = split_lines(p);
        let l = split_lines(s);
        assert(all_ws(s) <==> all_ws(p) && is_ws(c)) by {
            if all_ws(p) && is_ws(c) {
                assert forall|i: int| 0 <= i < s.len() implies is_ws(#[trigger] s[i]) by {
                    if i < s.len() - 1 {
                        assert(s[i] == p[i]);
                    }
                }
            }
            if all_ws(s) {
                assert forall|i: int| 0 <= i < p.len() implies is_ws(#[trigger] p[i]) by {
                    assert(s[i] == p[i]);
                }
                assert(is_ws(s[s.len() - 1]));
            }
        }
        if c == '\n' {
            assert(is_ws(c));
            assert(all_lines_ws(l) <==> all_lines_ws(lp)) by {
                if all_lines_ws(lp) {
                    assert forall|i: int| 0 <= i < l.len() implies all_ws(#[trigger] l[i]) by {
                        if i < lp.len() {
                            assert(l[i] == lp[i]);
                        } else {
                            assert(l[i].len() == 0);
                        }
                    }
                }
                if all_lines_ws(l) {
                    assert forall|i: int| 0 <= i < lp.len() implies all_ws(#[trigger] lp[i]) by {
                        assert(l[i] == lp[i]);
                    }
                }
            }
        } else {
            let n = lp.len() - 1;
            let last = lp[n].push(c);
            assert(l == lp.update(n, last));
            assert(all_ws(last) <==> all_ws(lp[n]) && is_ws(c)) by {
                if all_ws(lp[n]) && is_ws(c) {
                    assert forall|j: int| 0 <= j < last.len() implies is_ws(#[trigger] last[j]) by {
                        if j < lp[n].len() {
                            assert(last[j] == lp[n][j]);
                        }
                    }
                }
                if all_ws(last) {
                    assert forall|j: int| 0 <= j < lp[n].len() implies is_ws(#[trigger] lp[n][j]) by {
                        assert(last[j] == lp[n][j]);
                    }
                    assert(is_ws(last[last.len() - 1]));
                }
            }
            assert(all_lines_ws(l) <==> all_lines_ws(lp) && is_ws(c)) by {
                if all_lines_ws(lp) && is_ws(c) {
                    assert forall|i: int| 0 <= i < l.len() implies all_ws(#[trigger] l[i]) by {
                        if i < n {
                            assert(l[i] == lp[i]);
                        } else {
                            assert(all_ws(lp[n]));
                        }
                    }
                }
                if all_lines_ws(l) {
                    assert(all_ws(l[n]));
                    assert forall|i: int| 0 <= i < lp.len() implies all_ws(#[trigger] lp[i]) by {
                        if i < n {
                            assert(l[i] == lp[i]);
                        }
                    }
                }
            }
        }
    }
}

/// Stripping empty lines leaves nothing exactly when every line is empty.
proof fn lemma_strip_empty(ls: Seq<Seq<char>>)
    ensures
        strip_blank_lines(ls).len() == 0 <==> forall|i: int| 0 <= i < ls.len() ==> #[trigger] ls[i].len()
            == 0,
{
    lemma_leading_blank(ls);
    let a = leading_blank_count(ls);
    let rest = ls.skip(a as int);
    lemma_trailing_blank(rest);
    if a < ls.len() {
        assert(rest[0] == ls[a as int]);
        if trailing_blank_count(rest) == rest.len() {
            assert(rest[0].len() == 0);
        }
        assert(strip_blank_lines(ls).len() > 0);
        assert(ls[a as int].len() > 0);
    } else {
        assert(strip_blank_lines(ls).len() == 0);
    }
}

/// Normalised text is empty exactly when the text is whitespace only, that is
/// when it trims to nothing.
pub proof fn lemma_normalized_empty_iff_blank(s: Seq<char>)
    ensures
        normalized(s).len() == 0 <==> trim(s).len() == 0,
        trim(s).len() == 0 <==> all_ws(s),
{
    // Trimming.
    lemma_trim_end_empty(s);
    lemma_trim_end_shape(s);
    let te = trim_end(s);
    lemma_trim_start_empty(te);
    if te.len() > 0 {
        assert(!is_ws(te[te.len() - 1]));
        assert(!all_ws(te));
    }
    // Normalising.
    lemma_kept_lines(s);
    let l = split_lines(s);
    lemma_split_newline_free(s);
    let t = l.map_values(|x: Seq<char>| trim_end(x));
    let st = kept_lines(s);
    lemma_strip_empty(t);
    lemma_split_all_ws(s);
    assert((forall|i: int| 0 <= i < t.len() ==> #[trigger] t[i].len() == 0) <==> all_lines_ws(l))
        by {
        assert forall|i: int| 0 <= i < l.len() implies (#[trigger] t[i]).len() == 0 <==> all_ws(
            l[i],
        ) by {
            lemma_trim_end_empty(l[i]);
        }
        if all_lines_ws(l) {
            assert forall|i: int| 0 <= i < t.len() implies #[trigger] t[i].len() == 0 by {
                assert(all_ws(l[i]));
            }
        }
        if forall|i: int| 0 <= i < t.len() ==> #[trigger] t[i].len() == 0 {
            assert forall|i: int| 0 <= i < l.len() implies all_ws(#[trigger] l[i]) by {
                assert(t[i].len() == 0);
            }
        }
    }
    if st.len() == 0 {
        assert(normalized(s) =~= Seq::<char>::empty());
    } else {
        lemma_join_nonempty(st);
    }
}

proof fn lemma_join_nonempty(ls: Seq<Seq<char>>)
    requires
        ls.len() > 0,
        ls.last().len() > 0,
    ensures
        join_lines(ls).len() > 0,
{
}


/// Each of the four shortcut settings, named by its own key, takes any text
/// that `global-hotkey` accepts: the update succeeds, that setting becomes
/// the text, every other setting stays, and the change reports the old and
/// the new text.
pub proof fn lemma_each_shortcut_key_takes_accepted_text(p: PrefsView, value: Seq<char>)
    requires
        shortcut_rejection(value) is None,
    ensures
        preference_update(p, "shortcutCopy"@, value) == Ok::<(PrefsView, ChangeView), Seq<char>>(
            (
                PrefsView { shortcut_copy: value, ..p },
                ChangeView::Shortcut { old: p.shortcut_copy, new: value },
            ),
        ),
        preference_update(p, "shortcutPaste"@, value) == Ok::<(PrefsView, ChangeView), Seq<char>>(
            (
                PrefsView { shortcut_paste: value, ..p },
                ChangeView::Shortcut { old: p.shortcut_paste, new: value },
            ),
        ),
        preference_update(p, "shortcutRangeStart"@, value) == Ok::<
            (PrefsView, ChangeView),
            Seq<char>,
        >(
            (
                PrefsView { shortcut_range_start: value, ..p },
                ChangeView::Shortcut { old: p.shortcut_range_start, new: value },
            ),
        ),
        preference_update(p, "shortcutRangeEnd"@, value) == Ok::<
            (PrefsView, ChangeView),
            Seq<char>,
        >(
            (
                PrefsView { shortcut_range_end: value, ..p },
                ChangeView::Shortcut { old: p.shortcut_range_end, new: value },
            ),
        ),
{
    lemma_setting_keys_distinct();
}

/// A cursor reading at any position from the start of the text on, the
/// very start included, begins a text range there; only a failed or a
/// negative reading gives no text range.
pub proof fn lemma_cursor_reading_starts_text_range(p: i64, e: Seq<char>)
    ensures
        p >= 0 ==> cursor_start(Ok(p)) == Some(RangeStart::AxCursor(p)),
        p < 0 ==> cursor_start(Ok(p)) is None,
        cursor_start(Err(e)) is None,
{
}

/// A slot's title is the first line of its content trimmed at both ends and
/// cut to its first 18 characters: exactly 18 characters where the trimmed
/// line is that long, and a prefix of the trimmed line in every case.
pub proof fn lemma_title_is_prefix_of_trimmed_first_line(s: Seq<char>)
    ensures
        trim(first_line(s)).len() >= 18 ==> slot_title(s).len() == 18,
        trim(first_line(s)).len() < 18 ==> slot_title(s).len() == trim(first_line(s)).len(),
        forall|i: int| 0 <= i < slot_title(s).len() ==> #[trigger] slot_title(s)[i] == trim(
            first_line(s),
        )[i],
{
}

/// The selected range runs from the smaller cursor position to the larger:
/// its start is the smaller one and start plus length is the larger one.
pub proof fn lemma_selection_bounds_order(start: int, end: int)
    ensures
        selection_bounds(start, end).0 == if start <= end {
            start
        } else {
            end
        },
        selection_bounds(start, end).0 + selection_bounds(start, end).1 == if start <= end {
            end
        } else {
            start
        },
        selection_bounds(start, end).1 >= 0,
{
}

/// The selection script addresses the focused element of the frontmost
/// process and sets its selected range to the given location and length;
/// the whole text is fixed but for the two numbers.
pub proof fn lemma_selection_script_targets_frontmost(location: int, length: int)
    ensures
        selection_script_text(location, length)
            == "tell application \"System Events\"\n    tell (first process whose frontmost is true)\n        try\n            set el to value of attribute \"AXFocusedUIElement\"\n            set value of attribute \"AXSelectedTextRange\" of el to {location:"@
            + signed_dec(location) + ", length:"@ + signed_dec(length)
            + "}\n        on error errMsg\n            error errMsg\n        end try\n    end tell\nend tell"@,
{
}

/// The stamps of a captured slot read back as the clock readings they were
/// written from: the creation time is the second reading in decimal, and the
/// id is `slot-` followed by the first reading in decimal.
pub proof fn lemma_capture_stamps_read_back(content: Seq<char>, id_time: u64, created_time: u64)
    ensures
        unsigned_text_value(captured_slot(content, id_time, created_time).created_at) == Some(
            created_time as nat,
        ),
        captured_slot(content, id_time, created_time).id.take(5) == "slot-"@,
        unsigned_text_value(captured_slot(content, id_time, created_time).id.skip(5)) == Some(
            id_time as nat,
        ),
{
    lemma_decimal_reads_back(created_time as nat);
    lemma_decimal_reads_back(id_time as nat);
    reveal_strlit("slot-");
    let id = captured_slot(content, id_time, created_time).id;
    assert("slot-"@.len() == 5);
    assert(id.take(5) =~= "slot-"@);
    assert(id.skip(5) =~= dec(id_time as nat));
}

} // verus!
