//! What the texts of the library say: numbers, settings, traces and dumps.

use crate::dispatch_dump::{dims_at, head_of, row_of, word_at};
use crate::frame_trace::{delta, line_of, segments, Mode};
use crate::goldy_engine::{GoldyEngine, ResourceProxy};
use crate::live_texture::LiveTextureExchange;
use crate::resource_proxy::ShaderId;
use crate::text::{decimal_of, is_white_space, lowered, trimmed};
use crate::Error;
use vstd::prelude::*;

verus! {

broadcast use vstd::std_specs::hash::group_hash_axioms;

/// The number that a row of decimal digits stands for.
pub open spec fn value_of(digits: Seq<char>) -> int
    decreases digits.len(),
{
    if digits.len() == 0 {
        0
    } else {
        10 * value_of(digits.drop_last()) + (digits.last() as u32 - '0' as u32)
    }
}

/// A number is written in decimal digits, from which it can be read back, without zeros in front.
pub proof fn decimals_are_read_back(n: nat)
    ensures
        value_of(decimal_of(n)) == n,
        forall|i: int| 0 <= i < decimal_of(n).len() ==> '0' <= #[trigger] decimal_of(n)[i] <= '9',
        decimal_of(n).len() > 0,
        n > 0 ==> decimal_of(n)[0] != '0',
    decreases n,
{
    reveal_with_fuel(value_of, 2);
    if n < 10 {
        assert(decimal_of(n).drop_last() =~= Seq::<char>::empty());
    } else {
        decimals_are_read_back(n / 10);
        assert(decimal_of(n).drop_last() =~= decimal_of(n / 10));
    }
}

/// Trimming takes away white space at both ends and nothing else: what is left starts and ends with something else,
/// and what is taken away is all white space.
pub proof fn trimming_takes_white_space(s: Seq<char>)
    ensures
        trimmed(s).len() > 0 ==> !is_white_space(trimmed(s).first()) && !is_white_space(trimmed(s).last()),
        exists|before: Seq<char>, after: Seq<char>|
            {
                &&& #[trigger] (before + trimmed(s) + after) == s
                &&& forall|i: int| 0 <= i < before.len() ==> is_white_space(#[trigger] before[i])
                &&& forall|i: int| 0 <= i < after.len() ==> is_white_space(#[trigger] after[i])
            },
    decreases s.len(),
{
    let none = Seq::<char>::empty();
    if s.len() > 0 && is_white_space(s.first()) {
        let rest = s.drop_first();
        trimming_takes_white_space(rest);
        let (before, after) = choose|before: Seq<char>, after: Seq<char>|
            {
                &&& #[trigger] (before + trimmed(rest) + after) == rest
                &&& forall|i: int| 0 <= i < before.len() ==> is_white_space(#[trigger] before[i])
                &&& forall|i: int| 0 <= i < after.len() ==> is_white_space(#[trigger] after[i])
            };
        let more = seq![s.first()] + before;
        assert(more + trimmed(s) + after =~= s) by {
            assert(seq![s.first()] + rest =~= s);
            assert(more + trimmed(s) + after =~= seq![s.first()] + (before + trimmed(rest) + after));
        }
        assert forall|i: int| 0 <= i < more.len() implies is_white_space(#[trigger] more[i]) by {
            if i > 0 {
                assert(more[i] == before[i - 1]);
            }
        }
    } else if s.len() > 0 && is_white_space(s.last()) {
        let rest = s.drop_last();
        trimming_takes_white_space(rest);
        let (before, after) = choose|before: Seq<char>, after: Seq<char>|
            {
                &&& #[trigger] (before + trimmed(rest) + after) == rest
                &&& forall|i: int| 0 <= i < before.len() ==> is_white_space(#[trigger] before[i])
                &&& forall|i: int| 0 <= i < after.len() ==> is_white_space(#[trigger] after[i])
            };
        let more = after.push(s.last());
        assert(before + trimmed(s) + more =~= s) by {
            assert(rest.push(s.last()) =~= s);
            assert(before + trimmed(s) + more =~= (before + trimmed(rest) + after).push(s.last()));
        }
        assert forall|i: int| 0 <= i < more.len() implies is_white_space(#[trigger] more[i]) by {
            if i < after.len() {
                assert(more[i] == after[i]);
            }
        }
    } else {
        assert(none + trimmed(s) + none =~= s);
    }
}

/// The letter is one of the 26 capital ones.
pub open spec fn is_capital(c: char) -> bool {
    'A' as u32 <= c as u32 && c as u32 <= 'Z' as u32
}

/// Lowering a text changes capital letters to small ones, and nothing else.
pub proof fn lowering_changes_capitals(s: Seq<char>, i: int)
    requires
        0 <= i < s.len(),
    ensures
        lowered(s).len() == s.len(),
        is_capital(s[i]) ==> lowered(s)[i] as u32 - 'a' as u32 == s[i] as u32 - 'A' as u32,
        !is_capital(s[i]) ==> lowered(s)[i] == s[i],
        lowered(lowered(s)) == lowered(s),
{
    assert(lowered(lowered(s)) =~= lowered(s));
}

/// Tracing is off where it is not set, or set to nothing, "0", "false" or "off" in any case and with any white space
/// around; "ring" keeps the traces, and anything else logs them.
pub proof fn trace_settings_are_read(value: Seq<char>)
    ensures
        Mode::of(None) is Off,
        trimmed(value).len() == 0 ==> Mode::of(Some(value)) is Off,
        lowered(trimmed(value)) == seq!['0'] ==> Mode::of(Some(value)) is Off,
        lowered(trimmed(value)) == seq!['f', 'a', 'l', 's', 'e'] ==> Mode::of(Some(value)) is Off,
        lowered(trimmed(value)) == seq!['o', 'f', 'f'] ==> Mode::of(Some(value)) is Off,
        lowered(trimmed(value)) == seq!['r', 'i', 'n', 'g'] ==> Mode::of(Some(value)) is LogRing,
        Mode::of(Some(value)) is LogRing ==> trimmed(value).len() == 4 && lowered(trimmed(value))[0] == 'r',
        Mode::of(Some(value)) is Off ==> trimmed(value).len() == 0 || lowered(trimmed(value))[0] == '0' || lowered(
            trimmed(value),
        )[0] == 'f' || lowered(trimmed(value))[0] == 'o',
{
    reveal_strlit("");
    reveal_strlit("0");
    reveal_strlit("false");
    reveal_strlit("off");
    reveal_strlit("ring");
    let word = lowered(trimmed(value));
    assert("0"@ =~= seq!['0']);
    assert("false"@ =~= seq!['f', 'a', 'l', 's', 'e']);
    assert("off"@ =~= seq!['o', 'f', 'f']);
    assert("ring"@ =~= seq!['r', 'i', 'n', 'g']);
    assert(""@ =~= Seq::<char>::empty());
    if trimmed(value).len() == 0 {
        assert(word =~= ""@);
    }
    if word == seq!['r', 'i', 'n', 'g'] {
        assert(word[0] == 'r' && word.len() == 4);
    }
}

/// The text of an error ends with what went wrong.
pub proof fn messages_end_with_the_reason(error: Error)
    ensures
        ({
            let reason = match error {
                Error::Shader(text) => text@,
                Error::InvalidImage { reason, .. } => reason@,
                Error::Gpu(text) => text@,
                Error::Readback(text) => text@,
            };
            let message = error.spec_message();
            &&& message.len() > reason.len()
            &&& message.skip(message.len() - reason.len()) == reason
            &&& error is Shader ==> message[0] == 'S'
            &&& error is InvalidImage ==> message[0] == 'I'
            &&& error is Gpu ==> message[0] == 'G'
            &&& error is Readback ==> message[0] == 'C'
        }),
{
    reveal_strlit("Shader/GPU error: ");
    reveal_strlit("Invalid empty image (id: ");
    reveal_strlit("): ");
    reveal_strlit("GPU resource error: ");
    reveal_strlit("CPU readback error: ");
    let message = error.spec_message();
    match error {
        Error::Shader(text) => {
            assert(message.skip(message.len() - text@.len()) =~= text@);
        },
        Error::InvalidImage { reason, .. } => {
            assert(message.skip(message.len() - reason@.len()) =~= reason@);
        },
        Error::Gpu(text) => {
            assert(message.skip(message.len() - text@.len()) =~= text@);
        },
        Error::Readback(text) => {
            assert(message.skip(message.len() - text@.len()) =~= text@);
        },
    }
}

/// The bytes hold the word at a place, lowest byte first.
pub open spec fn holds_at(bytes: Seq<u8>, at: int, word: u32) -> bool {
    &&& bytes[at] == word % 0x100
    &&& bytes[at + 1] == word / 0x100 % 0x100
    &&& bytes[at + 2] == word / 0x1_0000 % 0x100
    &&& bytes[at + 3] == word / 0x100_0000
}

/// The size of an indirect dispatch is read from the three words at its offset, and is empty where they are not all
/// there.
pub proof fn dispatch_sizes_are_read_back(bytes: Seq<u8>, offset: u64, x: u32, y: u32, z: u32)
    ensures
        offset + 12 <= bytes.len() && holds_at(bytes, offset as int, x) && holds_at(bytes, offset + 4, y) && holds_at(
            bytes,
            offset + 8,
            z,
        ) ==> dims_at(bytes, offset) == (x, y, z),
        offset + 12 > bytes.len() ==> dims_at(bytes, offset) == (0u32, 0u32, 0u32),
{
    if offset + 12 <= bytes.len() {
        if holds_at(bytes, offset as int, x) {
            lemma_word_is_read(bytes, offset as int, x);
        }
        if holds_at(bytes, offset + 4, y) {
            lemma_word_is_read(bytes, offset + 4, y);
        }
        if holds_at(bytes, offset + 8, z) {
            lemma_word_is_read(bytes, offset + 8, z);
        }
    }
}

proof fn lemma_word_is_read(bytes: Seq<u8>, at: int, word: u32)
    requires
        holds_at(bytes, at, word),
    ensures
        word_at(bytes, at) == word,
{
    let a = word as int / 0x100;
    let b = word as int / 0x1_0000;
    let c = word as int / 0x100_0000;
    assert(a / 0x100 == b && b / 0x100 == c);
    assert(word == 0x100 * a + bytes[at]);
    assert(a == 0x100 * b + bytes[at + 1]);
    assert(b == 0x100 * c + bytes[at + 2]);
}

/// A dump reads the buffers that are on the GPU, each with the place of its binding, in the order of the bindings, and
/// no images.
pub proof fn dumps_read_the_buffers(engine: GoldyEngine, bindings: Seq<ResourceProxy>, n: int, k: int)
    requires
        0 <= k < n <= bindings.len() <= usize::MAX,
    ensures
        ({
            let list = engine.dumped(bindings, n);
            let before = engine.dumped(bindings, k).len() as int;
            &&& before <= list.len() <= n
            &&& match bindings[k] {
                ResourceProxy::Buffer(p) | ResourceProxy::BufferRange { proxy: p, .. } => {
                    engine.bufs@.dom().contains(p.id) ==> before < list.len() && list[before].0 == k && list[before].1
                        == engine.bufs@[p.id].0
                },
                ResourceProxy::Image(_) => engine.dumped(bindings, k + 1) == engine.dumped(bindings, k),
            }
        }),
    decreases n,
{
    if k < n - 1 {
        dumps_read_the_buffers(engine, bindings, n - 1, k);
    } else if k > 0 {
        dumps_read_the_buffers(engine, bindings, k, 0);
    }
}

/// A row lists its values one after the other: with one value more, it goes on after what was there with that value.
pub proof fn rows_go_on_with_their_values(values: Seq<u32>, n: int)
    requires
        0 <= n < values.len(),
    ensures
        row_of(values, 0).len() == 0,
        ({
            let row = row_of(values, n + 1);
            let last = decimal_of(values[n] as nat);
            &&& row.take(row_of(values, n).len() as int) == row_of(values, n)
            &&& row.skip(row.len() - last.len()) == last
        }),
{
    let row = row_of(values, n + 1);
    let last = decimal_of(values[n] as nat);
    assert(row.take(row_of(values, n).len() as int) =~= row_of(values, n));
    assert(row.skip(row.len() - last.len()) =~= last);
}

/// A trace goes on with each mark: behind what was there stands the time since the mark before it.
pub proof fn traces_go_on_with_their_marks(marks: Seq<(&'static str, u64)>, n: int)
    requires
        0 <= n < marks.len(),
    ensures
        segments(marks, 0).len() == 0,
        ({
            let text = segments(marks, n + 1);
            let last = decimal_of(delta(marks, n)) + seq!['n', 's'];
            &&& text.take(segments(marks, n).len() as int) == segments(marks, n)
            &&& text.skip(text.len() - last.len()) == last
            &&& n > 0 && marks[n].1 >= marks[n - 1].1 ==> delta(marks, n) == marks[n].1 - marks[n - 1].1
            &&& n == 0 ==> delta(marks, n) == marks[0].1
        }),
{
    reveal_strlit("ns");
    let text = segments(marks, n + 1);
    let last = decimal_of(delta(marks, n)) + seq!['n', 's'];
    assert("ns"@ =~= seq!['n', 's']);
    assert(text.take(segments(marks, n).len() as int) =~= segments(marks, n));
    assert(text.skip(text.len() - last.len()) =~= last);
}

/// Of the characters below 128, white space is the blank and the five from the tab to the carriage return; letters and
/// digits never are, nor anything behind the ideographic blank.
pub proof fn blanks_are_white_space(c: char)
    ensures
        c as u32 == 0x20 ==> is_white_space(c),
        0x09 <= c as u32 <= 0x0d ==> is_white_space(c),
        0x21 <= c as u32 <= 0x7f ==> !is_white_space(c),
        (c as u32) < 0x09 ==> !is_white_space(c),
        c as u32 > 0x3000 ==> !is_white_space(c),
{
}

/// A size mismatch is told with both sizes: that of the source first, and that of the target at the end.
pub proof fn mismatches_name_both_sizes(src: (u32, u32), dst: (u32, u32))
    ensures
        ({
            let text = LiveTextureExchange::mismatch_text(src, dst);
            let first = "blit_into: size mismatch "@ + decimal_of(src.0 as nat) + "x"@ + decimal_of(src.1 as nat);
            let last = decimal_of(dst.0 as nat) + "x"@ + decimal_of(dst.1 as nat);
            &&& text.take(first.len() as int) == first
            &&& text.skip(text.len() - last.len()) == last
        }),
{
    let text = LiveTextureExchange::mismatch_text(src, dst);
    let first = "blit_into: size mismatch "@ + decimal_of(src.0 as nat) + "x"@ + decimal_of(src.1 as nat);
    let last = decimal_of(dst.0 as nat) + "x"@ + decimal_of(dst.1 as nat);
    assert(text.take(first.len() as int) =~= first);
    assert(text.skip(text.len() - last.len()) =~= last);
}

/// A trace line names its frame in front, and ends with the time of the last mark.
pub proof fn trace_lines_end_with_the_total(frame_num: u64, timeline: u64, marks: Seq<(&'static str, u64)>)
    requires
        marks.len() > 0,
    ensures
        ({
            let line = line_of(frame_num, timeline, marks);
            let first = "[FTRACE] frame="@ + decimal_of(frame_num as nat) + " timeline="@ + decimal_of(timeline as nat);
            let last = " total="@ + decimal_of(marks[marks.len() - 1].1 as nat) + "ns"@;
            &&& line.take(first.len() as int) == first
            &&& line.skip(line.len() - last.len()) == last
            &&& line.len() == first.len() + segments(marks, marks.len() as int).len() + last.len()
        }),
{
    let line = line_of(frame_num, timeline, marks);
    let first = "[FTRACE] frame="@ + decimal_of(frame_num as nat) + " timeline="@ + decimal_of(timeline as nat);
    let last = " total="@ + decimal_of(marks[marks.len() - 1].1 as nat) + "ns"@;
    assert(line.take(first.len() as int) =~= first);
    assert(line.skip(line.len() - last.len()) =~= last);
}

/// A manifest names the shader first, then the size of the dispatch along each axis.
pub proof fn manifests_name_shader_and_size(shader: ShaderId, dims: (u32, u32, u32), bindings: nat, slots: Seq<u32>)
    ensures
        ({
            let text = head_of(shader, dims, bindings, slots);
            let first = "shader_id: "@ + decimal_of(shader.0 as nat) + "\ndispatch: ("@;
            let rest = text.skip(first.len() as int);
            let size = decimal_of(dims.0 as nat) + ", "@ + decimal_of(dims.1 as nat) + ", "@ + decimal_of(dims.2 as nat);
            &&& text.take(first.len() as int) == first
            &&& rest.take(size.len() as int) == size
        }),
{
    let text = head_of(shader, dims, bindings, slots);
    let first = "shader_id: "@ + decimal_of(shader.0 as nat) + "\ndispatch: ("@;
    let size = decimal_of(dims.0 as nat) + ", "@ + decimal_of(dims.1 as nat) + ", "@ + decimal_of(dims.2 as nat);
    assert(text.take(first.len() as int) =~= first);
    assert(text.skip(first.len() as int).take(size.len() as int) =~= size);
}

} // verus!
