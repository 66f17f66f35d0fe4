//! Different tasks get different labels: the label form of an identifier
//! can be read back.

use crate::label::{
    all_safe, escaped_byte, escaped_underscore, fullscreen_label, fullscreen_prefix, hex_upper,
    is_safe_char, is_unreserved, panel_label, panel_prefix, percent_escaped, replaced, safe_id,
};
use vstd::prelude::*;
use vstd::utf8::*;

verus! {

/// The byte stands for itself in a label: it is unreserved and no
/// underscore.
pub open spec fn is_literal(b: u8) -> bool {
    is_unreserved(b) && b != 0x5f
}

/// One byte as it stands in a label: itself if it is literal, else an
/// underscore and two upper-case hexadecimal digits.
pub open spec fn label_part(b: u8) -> Seq<char> {
    if is_literal(b) {
        seq![b as char]
    } else {
        seq!['_', hex_upper(b as int / 16), hex_upper(b as int % 16)]
    }
}

/// A byte string as it stands in a label.
pub open spec fn label_text(bytes: Seq<u8>) -> Seq<char>
    decreases bytes.len(),
{
    if bytes.len() == 0 {
        Seq::empty()
    } else {
        label_part(bytes[0]) + label_text(bytes.drop_first())
    }
}

proof fn lemma_replaced_concat(a: Seq<char>, b: Seq<char>, from: char, to: Seq<char>)
    ensures
        replaced(a + b, from, to) == replaced(a, from, to) + replaced(b, from, to),
    decreases a.len(),
{
    if a.len() == 0 {
        assert(a + b =~= b);
        assert(replaced(a, from, to) + replaced(b, from, to) =~= replaced(b, from, to));
    } else {
        assert((a + b)[0] == a[0]);
        assert((a + b).drop_first() =~= a.drop_first() + b);
        lemma_replaced_concat(a.drop_first(), b, from, to);
        let rest = replaced(a.drop_first(), from, to);
        let tail = replaced(b, from, to);
        if a[0] == from {
            assert(to + (rest + tail) =~= (to + rest) + tail);
        } else {
            assert(seq![a[0]] + (rest + tail) =~= (seq![a[0]] + rest) + tail);
        }
    }
}

proof fn lemma_hex_upper(d: int)
    requires
        0 <= d < 16,
    ensures
        hex_upper(d) != '%',
        hex_upper(d) != '_',
        ('0' <= hex_upper(d) <= '9') || ('A' <= hex_upper(d) <= 'F'),
        d < 10 ==> hex_upper(d) as int == 0x30 + d,
        d >= 10 ==> hex_upper(d) as int == 0x41 + d - 10,
{
}

/// Replacing in a text of up to three characters, written out.
proof fn lemma_replaced_short(text: Seq<char>, from: char, to: Seq<char>)
    requires
        text.len() <= 3,
    ensures
        text.len() == 1 && text[0] != from ==> replaced(text, from, to) == text,
        text.len() == 1 && text[0] == from ==> replaced(text, from, to) == to,
        text.len() == 3 && text[0] != from && text[1] != from && text[2] != from ==> replaced(
            text,
            from,
            to,
        ) == text,
        text.len() == 3 && text[0] == from && text[1] != from && text[2] != from ==> replaced(
            text,
            from,
            to,
        ) == to + seq![text[1], text[2]],
{
    reveal_with_fuel(replaced, 4);
    if text.len() == 1 {
        assert(text.drop_first() =~= Seq::<char>::empty());
        assert(seq![text[0]] + Seq::<char>::empty() =~= text);
        assert(to + Seq::<char>::empty() =~= to);
    } else if text.len() == 3 {
        let t1 = text.drop_first();
        let t2 = t1.drop_first();
        assert(t2.drop_first() =~= Seq::<char>::empty());
        assert(t1[0] == text[1] && t2[0] == text[2]);
        let last = replaced(t2, from, to);
        if text[2] != from {
            assert(last =~= seq![text[2]]);
            if text[1] != from {
                assert(replaced(t1, from, to) =~= seq![text[1], text[2]]);
                if text[0] != from {
                    assert(replaced(text, from, to) =~= text);
                } else {
                    assert(replaced(text, from, to) =~= to + seq![text[1], text[2]]);
                }
            }
        }
    }
}

proof fn lemma_part(b: u8)
    ensures
        replaced(replaced(escaped_byte(b), '_', escaped_underscore()), '%', seq!['_'])
            == label_part(b),
{
    lemma_hex_upper(b as int / 16);
    lemma_hex_upper(b as int % 16);
    lemma_hex_upper(5);
    lemma_hex_upper(15);
    let e = escaped_byte(b);
    let under = seq!['_'];
    lemma_replaced_short(e, '_', escaped_underscore());
    if b == 0x5f {
        assert(e[0] == '_');
        lemma_replaced_short(escaped_underscore(), '%', under);
        assert(under + seq!['5', 'F'] =~= label_part(b));
    } else if is_unreserved(b) {
        lemma_replaced_short(e, '%', under);
        assert(e[0] != '%');
    } else {
        lemma_replaced_short(e, '%', under);
        assert(under + seq![e[1], e[2]] =~= label_part(b));
    }
}

proof fn lemma_escaped_is_label_text(bytes: Seq<u8>)
    ensures
        replaced(replaced(percent_escaped(bytes), '_', escaped_underscore()), '%', seq!['_'])
            == label_text(bytes),
    decreases bytes.len(),
{
    if bytes.len() > 0 {
        let head = escaped_byte(bytes[0]);
        let tail = percent_escaped(bytes.drop_first());
        lemma_replaced_concat(head, tail, '_', escaped_underscore());
        lemma_replaced_concat(
            replaced(head, '_', escaped_underscore()),
            replaced(tail, '_', escaped_underscore()),
            '%',
            seq!['_'],
        );
        lemma_part(bytes[0]);
        lemma_escaped_is_label_text(bytes.drop_first());
    }
}

/// The label form of an identifier is the label text of its UTF-8 bytes.
pub proof fn lemma_safe_id_is_label_text(task: Seq<char>)
    ensures
        safe_id(task) == label_text(encode_utf8(task)),
{
    lemma_escaped_is_label_text(encode_utf8(task));
}

proof fn lemma_label_text_safe(bytes: Seq<u8>)
    ensures
        all_safe(label_text(bytes)),
    decreases bytes.len(),
{
    if bytes.len() > 0 {
        lemma_hex_upper(bytes[0] as int / 16);
        lemma_hex_upper(bytes[0] as int % 16);
        lemma_label_text_safe(bytes.drop_first());
        let head = label_part(bytes[0]);
        let tail = label_text(bytes.drop_first());
        assert(all_safe(head));
        assert forall|i: int| 0 <= i < (head + tail).len() implies is_safe_char(
            #[trigger] (head + tail)[i],
        ) by {
            if i < head.len() {
                assert((head + tail)[i] == head[i]);
            } else {
                assert((head + tail)[i] == tail[i - head.len()]);
            }
        }
    }
}

/// The labels of a task hold safe characters only, whatever its
/// identifier.
pub proof fn lemma_labels_are_safe(task: Seq<char>)
    ensures
        all_safe(safe_id(task)),
        all_safe(panel_label(task)),
        all_safe(fullscreen_label(task)),
{
    lemma_safe_id_is_label_text(task);
    lemma_label_text_safe(encode_utf8(task));
    let safe = safe_id(task);
    assert forall|i: int| 0 <= i < panel_label(task).len() implies is_safe_char(
        #[trigger] panel_label(task)[i],
    ) by {
        if i >= 6 {
            assert(panel_label(task)[i] == safe[i - 6]);
        }
    }
    assert forall|i: int| 0 <= i < fullscreen_label(task).len() implies is_safe_char(
        #[trigger] fullscreen_label(task)[i],
    ) by {
        if i >= 8 {
            assert(fullscreen_label(task)[i] == safe[i - 8]);
        }
    }
}

/// Byte strings with the same label text are the same: an underscore in
/// a label text always begins an escape, so the text can be read back.
pub proof fn lemma_label_text_injective(x: Seq<u8>, y: Seq<u8>)
    requires
        label_text(x) == label_text(y),
    ensures
        x == y,
    decreases x.len() + y.len(),
{
    if x.len() == 0 || y.len() == 0 {
        if x.len() > 0 {
            assert(label_part(x[0]).len() > 0);
            assert(label_text(x).len() == label_part(x[0]).len() + label_text(
                x.drop_first(),
            ).len());
            assert(label_text(y).len() == 0);
        }
        if y.len() > 0 {
            assert(label_part(y[0]).len() > 0);
            assert(label_text(y).len() == label_part(y[0]).len() + label_text(
                y.drop_first(),
            ).len());
            assert(label_text(x).len() == 0);
        }
        assert(x.len() == 0 && y.len() == 0);
        assert(x =~= y);
    } else {
        let bx = x[0];
        let by = y[0];
        let tx = label_text(x.drop_first());
        let ty = label_text(y.drop_first());
        let lx = label_text(x);
        let ly = label_text(y);
        lemma_hex_upper(bx as int / 16);
        lemma_hex_upper(bx as int % 16);
        lemma_hex_upper(by as int / 16);
        lemma_hex_upper(by as int % 16);
        assert(lx[0] == label_part(bx)[0]);
        assert(ly[0] == label_part(by)[0]);
        if is_literal(bx) && is_literal(by) {
            assert(lx[0] == bx as char && ly[0] == by as char);
            assert(tx =~= lx.skip(1));
            assert(ty =~= ly.skip(1));
        } else if !is_literal(bx) && !is_literal(by) {
            assert(lx[1] == hex_upper(bx as int / 16) && lx[2] == hex_upper(bx as int % 16));
            assert(ly[1] == hex_upper(by as int / 16) && ly[2] == hex_upper(by as int % 16));
            assert(bx as int / 16 == by as int / 16);
            assert(bx as int % 16 == by as int % 16);
            assert(tx =~= lx.skip(3));
            assert(ty =~= ly.skip(3));
        } else if is_literal(bx) {
            assert(lx[0] == bx as char && ly[0] == '_');
            assert(false);
        } else {
            assert(ly[0] == by as char && lx[0] == '_');
            assert(false);
        }
        assert(bx == by);
        lemma_label_text_injective(x.drop_first(), y.drop_first());
        assert(x =~= seq![bx] + x.drop_first());
        assert(y =~= seq![by] + y.drop_first());
    }
}

/// A panel label is never a fullscreen label, whatever the keys.
pub proof fn lemma_kinds_apart(panel_key: Seq<char>, fullscreen_key: Seq<char>)
    ensures
        panel_prefix() + panel_key != fullscreen_prefix() + fullscreen_key,
{
    assert((panel_prefix() + panel_key)[5] == '-');
    assert((fullscreen_prefix() + fullscreen_key)[5] == 'f');
}

/// Surfaces of one kind with different keys have different labels.
pub proof fn lemma_keys_apart(a: Seq<char>, b: Seq<char>)
    requires
        a != b,
    ensures
        panel_prefix() + a != panel_prefix() + b,
        fullscreen_prefix() + a != fullscreen_prefix() + b,
{
    if panel_prefix() + a == panel_prefix() + b {
        assert(a =~= (panel_prefix() + a).skip(6));
        assert(b =~= (panel_prefix() + b).skip(6));
    }
    if fullscreen_prefix() + a == fullscreen_prefix() + b {
        assert(a =~= (fullscreen_prefix() + a).skip(8));
        assert(b =~= (fullscreen_prefix() + b).skip(8));
    }
}

/// The panel of any task and the fullscreen surface of any task, the same
/// or another, have different labels.
pub proof fn lemma_panel_is_not_fullscreen(task: Seq<char>, other: Seq<char>)
    ensures
        panel_label(task) != fullscreen_label(other),
{
    lemma_kinds_apart(safe_id(task), safe_id(other));
}

/// Different tasks have different labels, whatever their identifiers
/// hold.
pub proof fn lemma_labels_differ(task: Seq<char>, other: Seq<char>)
    requires
        task != other,
    ensures
        safe_id(task) != safe_id(other),
        panel_label(task) != panel_label(other),
        fullscreen_label(task) != fullscreen_label(other),
{
    lemma_safe_id_is_label_text(task);
    lemma_safe_id_is_label_text(other);
    if safe_id(task) == safe_id(other) {
        lemma_label_text_injective(encode_utf8(task), encode_utf8(other));
        encode_utf8_decode_utf8(task);
        encode_utf8_decode_utf8(other);
    }
    lemma_keys_apart(safe_id(task), safe_id(other));
}

} // verus!
