//! The "bottom" encoding used by the `bottomify` command: every byte of the
//! text becomes a run of emoji whose values add up to the byte, closed by a
//! pair of pointing fingers.

use vstd::prelude::*;
use crate::text::{concat, split_on, split_terminator_on};

verus! {

/// The emoji run for a byte value, largest symbols first:
/// 🫂 = 200, 💖 = 50, ✨ = 10, 🥺 = 5 and `,` = 1.
pub open spec fn emoji_run(v: nat) -> Seq<char>
    decreases v,
{
    if v >= 200 {
        "🫂"@ + emoji_run((v - 200) as nat)
    } else if v >= 50 {
        "💖"@ + emoji_run((v - 50) as nat)
    } else if v >= 10 {
        "✨"@ + emoji_run((v - 10) as nat)
    } else if v >= 5 {
        "🥺"@ + emoji_run((v - 5) as nat)
    } else if v >= 1 {
        ","@ + emoji_run((v - 1) as nat)
    } else {
        Seq::empty()
    }
}

/// The full encoding of one byte: a heart for zero, the run, then 👉👈.
pub open spec fn byte_emoji(b: u8) -> Seq<char> {
    (if b == 0 {
        "❤️"@
    } else {
        Seq::<char>::empty()
    }) + emoji_run(b as nat) + "👉👈"@
}

/// The encoding of a whole byte string: the encodings of its bytes in order.
pub open spec fn bottom_bytes(bytes: Seq<u8>) -> Seq<char>
    decreases bytes.len(),
{
    if bytes.len() == 0 {
        Seq::empty()
    } else {
        bottom_bytes(bytes.drop_last()) + byte_emoji(bytes.last())
    }
}

/// The value a single symbol of a run stands for (0 for anything else).
pub open spec fn symbol_value(c: char) -> nat {
    if c == '\u{1FAC2}' {
        200
    } else if c == '\u{1F496}' {
        50
    } else if c == '\u{2728}' {
        10
    } else if c == '\u{1F97A}' {
        5
    } else if c == ',' {
        1
    } else {
        0
    }
}

/// The sum of the values of the symbols of a run.
pub open spec fn run_value(s: Seq<char>) -> nat
    decreases s.len(),
{
    if s.len() == 0 {
        0
    } else {
        symbol_value(s[0]) + run_value(s.drop_first())
    }
}

proof fn lemma_run_value_cons(c: char, s: Seq<char>)
    ensures
        run_value(seq![c] + s) == symbol_value(c) + run_value(s),
{
    assert((seq![c] + s).drop_first() =~= s);
}

/// Decoding law: the symbols of the run for `v` add up to `v`, so a byte can
/// be read back from its encoding.
pub proof fn lemma_emoji_run_value(v: nat)
    ensures
        run_value(emoji_run(v)) == v,
    decreases v,
{
    reveal_strlit("🫂");
    reveal_strlit("💖");
    reveal_strlit("✨");
    reveal_strlit("🥺");
    reveal_strlit(",");
    if v >= 200 {
        lemma_emoji_run_value((v - 200) as nat);
        assert("🫂"@ =~= seq!['\u{1FAC2}']);
        lemma_run_value_cons('\u{1FAC2}', emoji_run((v - 200) as nat));
    } else if v >= 50 {
        lemma_emoji_run_value((v - 50) as nat);
        assert("💖"@ =~= seq!['\u{1F496}']);
        lemma_run_value_cons('\u{1F496}', emoji_run((v - 50) as nat));
    } else if v >= 10 {
        lemma_emoji_run_value((v - 10) as nat);
        assert("✨"@ =~= seq!['\u{2728}']);
        lemma_run_value_cons('\u{2728}', emoji_run((v - 10) as nat));
    } else if v >= 5 {
        lemma_emoji_run_value((v - 5) as nat);
        assert("🥺"@ =~= seq!['\u{1F97A}']);
        lemma_run_value_cons('\u{1F97A}', emoji_run((v - 5) as nat));
    } else if v >= 1 {
        lemma_emoji_run_value((v - 1) as nat);
        assert(","@ =~= seq![',']);
        lemma_run_value_cons(',', emoji_run((v - 1) as nat));
    }
}

/// `n` copies of the symbol `c`.
pub open spec fn copies(c: char, n: nat) -> Seq<char> {
    Seq::new(n, |_i: int| c)
}

proof fn lemma_copies_cons(c: char, n: nat)
    requires
        n >= 1,
    ensures
        seq![c] + copies(c, (n - 1) as nat) == copies(c, n),
{
    assert(seq![c] + copies(c, (n - 1) as nat) =~= copies(c, n));
}

/// Greedy law of the encoding: the run for `v` spends the largest symbols
/// first, so it holds `v / 200` 🫂, then `(v % 200) / 50` 💖 (at most
/// three), `(v % 50) / 10` ✨ (at most four), `(v % 10) / 5` 🥺 (at most
/// one) and `v % 5` commas (at most four), in that order.
pub proof fn lemma_emoji_run_greedy(v: nat)
    ensures
        emoji_run(v) == copies('\u{1FAC2}', v / 200) + copies('\u{1F496}', (v % 200) / 50) + copies(
            '\u{2728}',
            (v % 50) / 10,
        ) + copies('\u{1F97A}', (v % 10) / 5) + copies(',', v % 5),
        (v % 200) / 50 <= 3,
        (v % 50) / 10 <= 4,
        (v % 10) / 5 <= 1,
        v % 5 <= 4,
    decreases v,
{
    reveal_strlit("🫂");
    reveal_strlit("💖");
    reveal_strlit("✨");
    reveal_strlit("🥺");
    reveal_strlit(",");
    let a = '\u{1FAC2}';
    let b = '\u{1F496}';
    let c = '\u{2728}';
    let d = '\u{1F97A}';
    let e = ',';
    if v >= 200 {
        let w = (v - 200) as nat;
        lemma_emoji_run_greedy(w);
        assert(w / 200 == v / 200 - 1 && w % 200 == v % 200 && w % 50 == v % 50 && w % 10 == v % 10 && w % 5
            == v % 5) by (nonlinear_arith)
            requires
                w == v - 200,
                v >= 200,
        ;
        assert("🫂"@ =~= seq![a]);
        lemma_copies_cons(a, v / 200);
        assert(emoji_run(v) =~= (seq![a] + copies(a, w / 200)) + copies(b, (v % 200) / 50) + copies(c, (v % 50) / 10)
            + copies(d, (v % 10) / 5) + copies(e, v % 5));
    } else if v >= 50 {
        let w = (v - 50) as nat;
        lemma_emoji_run_greedy(w);
        assert(w / 200 == 0 && v / 200 == 0 && (w % 200) / 50 == (v % 200) / 50 - 1 && w % 50 == v % 50 && w % 10
            == v % 10 && w % 5 == v % 5 && (v % 200) / 50 <= 3) by (nonlinear_arith)
            requires
                w == v - 50,
                50 <= v < 200,
        ;
        assert("💖"@ =~= seq![b]);
        lemma_copies_cons(b, (v % 200) / 50);
        assert(copies(a, 0) =~= Seq::<char>::empty());
        assert(emoji_run(v) =~= copies(a, v / 200) + (seq![b] + copies(b, (w % 200) / 50)) + copies(c, (v % 50) / 10)
            + copies(d, (v % 10) / 5) + copies(e, v % 5));
    } else if v >= 10 {
        let w = (v - 10) as nat;
        lemma_emoji_run_greedy(w);
        assert(w / 200 == 0 && v / 200 == 0 && (w % 200) / 50 == 0 && (v % 200) / 50 == 0 && (w % 50) / 10 == (v
            % 50) / 10 - 1 && w % 10 == v % 10 && w % 5 == v % 5 && (v % 50) / 10 <= 4) by (nonlinear_arith)
            requires
                w == v - 10,
                10 <= v < 50,
        ;
        assert("✨"@ =~= seq![c]);
        lemma_copies_cons(c, (v % 50) / 10);
        assert(copies(a, 0) =~= Seq::<char>::empty());
        assert(copies(b, 0) =~= Seq::<char>::empty());
        assert(emoji_run(v) =~= copies(a, v / 200) + copies(b, (v % 200) / 50) + (seq![c] + copies(c, (w % 50) / 10))
            + copies(d, (v % 10) / 5) + copies(e, v % 5));
    } else if v >= 5 {
        let w = (v - 5) as nat;
        lemma_emoji_run_greedy(w);
        assert(w / 200 == 0 && v / 200 == 0 && (w % 200) / 50 == 0 && (v % 200) / 50 == 0 && (w % 50) / 10 == 0 && (v
            % 50) / 10 == 0 && (w % 10) / 5 == 0 && (v % 10) / 5 == 1 && w % 5 == v % 5) by (nonlinear_arith)
            requires
                w == v - 5,
                5 <= v < 10,
        ;
        assert("🥺"@ =~= seq![d]);
        lemma_copies_cons(d, (v % 10) / 5);
        assert(copies(a, 0) =~= Seq::<char>::empty());
        assert(copies(b, 0) =~= Seq::<char>::empty());
        assert(copies(c, 0) =~= Seq::<char>::empty());
        assert(copies(d, 0) =~= Seq::<char>::empty());
        assert(emoji_run(v) =~= copies(a, v / 200) + copies(b, (v % 200) / 50) + copies(c, (v % 50) / 10) + (seq![d]
            + copies(d, (w % 10) / 5)) + copies(e, v % 5));
    } else if v >= 1 {
        let w = (v - 1) as nat;
        lemma_emoji_run_greedy(w);
        assert(w / 200 == 0 && v / 200 == 0 && (w % 200) / 50 == 0 && (v % 200) / 50 == 0 && (w % 50) / 10 == 0 && (v
            % 50) / 10 == 0 && (w % 10) / 5 == 0 && (v % 10) / 5 == 0 && w % 5 == v % 5 - 1 && v % 5 == v)
            by (nonlinear_arith)
            requires
                w == v - 1,
                1 <= v < 5,
        ;
        assert(","@ =~= seq![e]);
        lemma_copies_cons(e, v % 5);
        assert(copies(a, 0) =~= Seq::<char>::empty());
        assert(copies(b, 0) =~= Seq::<char>::empty());
        assert(copies(c, 0) =~= Seq::<char>::empty());
        assert(copies(d, 0) =~= Seq::<char>::empty());
        assert(emoji_run(v) =~= copies(a, v / 200) + copies(b, (v % 200) / 50) + copies(c, (v % 50) / 10) + copies(
            d,
            (v % 10) / 5,
        ) + (seq![e] + copies(e, w % 5)));
    } else {
        assert(copies(a, 0) =~= Seq::<char>::empty());
        assert(copies(b, 0) =~= Seq::<char>::empty());
        assert(copies(c, 0) =~= Seq::<char>::empty());
        assert(copies(d, 0) =~= Seq::<char>::empty());
        assert(copies(e, 0) =~= Seq::<char>::empty());
        assert(emoji_run(v) =~= copies(a, v / 200) + copies(b, (v % 200) / 50) + copies(c, (v % 50) / 10) + copies(
            d,
            (v % 10) / 5,
        ) + copies(e, v % 5));
    }
}

/// Law of the encoding of a text: the bytes are encoded one after the
/// other, each on its own, so the encoding of two byte strings in a row is
/// the encoding of the first followed by that of the second.
pub proof fn lemma_bottom_bytes_append(a: Seq<u8>, b: Seq<u8>)
    ensures
        bottom_bytes(a + b) == bottom_bytes(a) + bottom_bytes(b),
    decreases b.len(),
{
    if b.len() == 0 {
        assert(a + b =~= a);
        assert(bottom_bytes(a) + bottom_bytes(b) =~= bottom_bytes(a));
    } else {
        lemma_bottom_bytes_append(a, b.drop_last());
        assert((a + b).drop_last() =~= a + b.drop_last());
        assert((a + b).last() == b.last());
        assert(bottom_bytes(a + b) =~= bottom_bytes(a) + bottom_bytes(b));
    }
}

/// Law of the encoding of one byte: a heart for the zero byte, the greedy
/// run of symbols of the byte, then 👉👈.
pub proof fn lemma_bottom_single_byte(v: u8)
    ensures
        bottom_bytes(seq![v]) == (if v == 0 {
            "❤️"@
        } else {
            Seq::<char>::empty()
        }) + copies('\u{1FAC2}', v as nat / 200) + copies('\u{1F496}', (v as nat % 200) / 50) + copies(
            '\u{2728}',
            (v as nat % 50) / 10,
        ) + copies('\u{1F97A}', (v as nat % 10) / 5) + copies(',', v as nat % 5) + "👉👈"@,
{
    lemma_emoji_run_greedy(v as nat);
    assert(seq![v].drop_last() =~= Seq::<u8>::empty());
    assert(seq![v].last() == v);
    assert(bottom_bytes(Seq::<u8>::empty()) == Seq::<char>::empty());
    assert(bottom_bytes(seq![v]) =~= byte_emoji(v));
}

/// The encoding of a byte without its closing 👈.
pub open spec fn byte_body(b: u8) -> Seq<char> {
    (if b == 0 {
        "❤️"@
    } else {
        Seq::<char>::empty()
    }) + emoji_run(b as nat) + "👉"@
}

/// Reads encoded text back: the pieces closed by 👈, each worth the sum of
/// its symbols.
pub open spec fn unbottom(s: Seq<char>) -> Seq<nat> {
    split_terminator_on(s, '\u{1F448}').map_values(|p: Seq<char>| run_value(p))
}

proof fn lemma_run_value_append(a: Seq<char>, b: Seq<char>)
    ensures
        run_value(a + b) == run_value(a) + run_value(b),
    decreases a.len(),
{
    if a.len() > 0 {
        lemma_run_value_append(a.drop_first(), b);
        assert((a + b).drop_first() =~= a.drop_first() + b);
    } else {
        assert(a + b =~= b);
    }
}

proof fn lemma_run_has_no_closer(v: nat)
    ensures
        !emoji_run(v).contains('\u{1F448}'),
    decreases v,
{
    reveal_strlit("🫂");
    reveal_strlit("💖");
    reveal_strlit("✨");
    reveal_strlit("🥺");
    reveal_strlit(",");
    let s = emoji_run(v);
    if v >= 1 {
        let (head, rest): (Seq<char>, nat) = if v >= 200 {
            ("🫂"@, (v - 200) as nat)
        } else if v >= 50 {
            ("💖"@, (v - 50) as nat)
        } else if v >= 10 {
            ("✨"@, (v - 10) as nat)
        } else if v >= 5 {
            ("🥺"@, (v - 5) as nat)
        } else {
            (","@, (v - 1) as nat)
        };
        lemma_run_has_no_closer(rest);
        assert(s == head + emoji_run(rest));
        assert(head.len() == 1 && head[0] != '\u{1F448}');
        if s.contains('\u{1F448}') {
            let k = choose|k: int| 0 <= k < s.len() && s[k] == '\u{1F448}';
            if k >= 1 {
                assert(emoji_run(rest)[k - 1] == '\u{1F448}');
            }
        }
    }
}

/// One byte's encoding is its body, worth the byte, then the closing 👈.
proof fn lemma_byte_parts(b: u8)
    ensures
        byte_emoji(b) == byte_body(b).push('\u{1F448}'),
        !byte_body(b).contains('\u{1F448}'),
        run_value(byte_body(b)) == b as nat,
{
    reveal_strlit("❤️");
    reveal_strlit("👉");
    reveal_strlit("👉👈");
    let head = if b == 0 {
        "❤️"@
    } else {
        Seq::<char>::empty()
    };
    let run = emoji_run(b as nat);
    assert("👉👈"@ =~= "👉"@.push('\u{1F448}'));
    assert(byte_emoji(b) =~= byte_body(b).push('\u{1F448}'));
    lemma_run_has_no_closer(b as nat);
    lemma_emoji_run_value(b as nat);
    lemma_run_value_append(head, run);
    lemma_run_value_append(head + run, "👉"@);
    assert(run_value("👉"@) == 0) by {
        assert("👉"@.drop_first() =~= Seq::<char>::empty());
    }
    if b == 0 {
        assert(run_value(head) == 0) by {
            assert(head =~= seq!['\u{2764}'] + seq!['\u{FE0F}']);
            lemma_run_value_cons('\u{2764}', seq!['\u{FE0F}']);
            lemma_run_value_cons('\u{FE0F}', Seq::<char>::empty());
            assert(seq!['\u{FE0F}'] =~= seq!['\u{FE0F}'] + Seq::<char>::empty());
        }
    }
    let body = byte_body(b);
    assert(body == head + run + "👉"@);
    if body.contains('\u{1F448}') {
        let k = choose|k: int| 0 <= k < body.len() && body[k] == '\u{1F448}';
        if k >= head.len() && k < head.len() + run.len() {
            assert(run[k - head.len()] == '\u{1F448}');
        }
    }
}

/// Splitting text whose pieces so far end in an empty one, then adding
/// characters other than the separator, fills that last piece.
proof fn lemma_split_extend(a: Seq<char>, pieces: Seq<Seq<char>>, y: Seq<char>, sep: char)
    requires
        split_on(a, sep) == pieces.push(Seq::<char>::empty()),
        !y.contains(sep),
    ensures
        split_on(a + y, sep) == pieces.push(y),
    decreases y.len(),
{
    if y.len() == 0 {
        assert(a + y =~= a);
        assert(y =~= Seq::<char>::empty());
    } else {
        let y2 = y.drop_last();
        assert(!y2.contains(sep)) by {
            if y2.contains(sep) {
                let k = choose|k: int| 0 <= k < y2.len() && y2[k] == sep;
                assert(y[k] == sep);
            }
        }
        lemma_split_extend(a, pieces, y2, sep);
        assert((a + y).drop_last() =~= a + y2);
        assert((a + y).last() == y.last());
        assert(y.last() != sep) by {
            assert(y[y.len() - 1] == y.last());
        }
        assert(y2.push(y.last()) =~= y);
        assert(split_on(a + y, sep) =~= pieces.push(y));
    }
}

proof fn lemma_bottom_pieces(bytes: Seq<u8>)
    ensures
        split_on(bottom_bytes(bytes), '\u{1F448}') == bytes.map_values(|b: u8| byte_body(b)).push(
            Seq::<char>::empty(),
        ),
    decreases bytes.len(),
{
    let sep = '\u{1F448}';
    if bytes.len() == 0 {
        assert(bytes.map_values(|b: u8| byte_body(b)) =~= Seq::<Seq<char>>::empty());
        assert(split_on(Seq::<char>::empty(), sep) =~= seq![Seq::<char>::empty()]);
    } else {
        let prev = bytes.drop_last();
        let x = bytes.last();
        lemma_bottom_pieces(prev);
        lemma_byte_parts(x);
        let a = bottom_bytes(prev);
        let bodies = prev.map_values(|b: u8| byte_body(b));
        lemma_split_extend(a, bodies, byte_body(x), sep);
        let z = a + byte_body(x);
        assert(bottom_bytes(bytes) =~= z.push(sep));
        assert(z.push(sep).drop_last() =~= z);
        assert(bytes.map_values(|b: u8| byte_body(b)) =~= bodies.push(byte_body(x)));
    }
}

/// Decoding law: reading the encoding of a byte string back gives the bytes
/// again, in order.
pub proof fn lemma_bottom_decodes(bytes: Seq<u8>)
    ensures
        unbottom(bottom_bytes(bytes)) == bytes.map_values(|b: u8| b as nat),
{
    lemma_bottom_pieces(bytes);
    let sep = '\u{1F448}';
    let bodies = bytes.map_values(|b: u8| byte_body(b));
    assert(split_terminator_on(bottom_bytes(bytes), sep) =~= bodies);
    assert forall|k: int| 0 <= k < bytes.len() implies run_value(bodies[k]) == bytes[k] as nat by {
        lemma_byte_parts(bytes[k]);
    }
    assert(unbottom(bottom_bytes(bytes)) =~= bytes.map_values(|b: u8| b as nat));
}

/// Encodes one byte: a heart for zero, then the largest symbols that fit,
/// repeatedly, then 👉👈.
pub fn byte_to_emoji(value: u8) -> (res: String)
    ensures
        res@ == byte_emoji(value),
{
    let mut buffer = String::new();
    let mut value = value;
    let ghost orig = value;
    if value == 0 {
        buffer = concat(&buffer, "❤️");
    }
    let ghost head = buffer@;
    assert(head == (if orig == 0 {
        "❤️"@
    } else {
        Seq::<char>::empty()
    }));
    loop
        invariant
            buffer@ + emoji_run(value as nat) =~= head + emoji_run(orig as nat),
        ensures
            value == 0,
        decreases value,
    {
        let (emoji, subtract): (&str, u8) = if value >= 200 {
            ("🫂", 200)
        } else if value >= 50 {
            ("💖", 50)
        } else if value >= 10 {
            ("✨", 10)
        } else if value >= 5 {
            ("🥺", 5)
        } else if value >= 1 {
            (",", 1)
        } else {
            break;
        };
        assert(emoji_run(value as nat) =~= emoji@ + emoji_run((value - subtract) as nat));
        buffer = concat(&buffer, emoji);
        value = value - subtract;
    }
    assert(emoji_run(value as nat) =~= Seq::<char>::empty());
    buffer = concat(&buffer, "👉👈");
    buffer
}

/// Translates a whole text, byte by byte of its UTF-8 encoding.
pub fn bottomify(plead: &str) -> (res: String)
    ensures
        res@ == bottom_bytes(vstd::utf8::encode_utf8(plead@)),
{
    let bytes = plead.as_bytes();
    let mut result = String::new();
    let mut i: usize = 0;
    assert(bytes@.take(0) =~= Seq::<u8>::empty());
    while i < bytes.len()
        invariant
            bytes@ == vstd::utf8::encode_utf8(plead@),
            i <= bytes@.len(),
            result@ == bottom_bytes(bytes@.take(i as int)),
        decreases bytes@.len() - i,
    {
        let piece = byte_to_emoji(bytes[i]);
        assert(bytes@.take(i + 1).drop_last() =~= bytes@.take(i as int));
        result = concat(&result, piece.as_str());
        i = i + 1;
    }
    assert(bytes@.take(bytes@.len() as int) =~= bytes@);
    result
}

} // verus!
