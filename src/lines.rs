use vstd::prelude::*;
use vstd::utf8::*;

verus! {

/// What `String::from_utf8_lossy` makes of a byte sequence.
pub uninterp spec fn lossy_text(bytes: Seq<u8>) -> Seq<char>;

/// The characters with the Unicode White_Space property, by which
/// `char::is_whitespace` and `str::trim` go.
pub open spec fn is_white_space(c: char) -> bool {
    let u = c as u32;
    (0x9 <= u <= 0xd) || u == 0x20 || u == 0x85 || u == 0xa0 || u == 0x1680 || (0x2000 <= u
        <= 0x200a) || u == 0x2028 || u == 0x2029 || u == 0x202f || u == 0x205f || u == 0x3000
}

/// A text without its leading white space.
pub open spec fn trim_start(text: Seq<char>) -> Seq<char>
    decreases text.len(),
{
    if text.len() > 0 && is_white_space(text[0]) {
        trim_start(text.drop_first())
    } else {
        text
    }
}

/// A text without its trailing white space.
pub open spec fn trim_end(text: Seq<char>) -> Seq<char>
    decreases text.len(),
{
    if text.len() > 0 && is_white_space(text.last()) {
        trim_end(text.drop_last())
    } else {
        text
    }
}

/// A text without its leading and trailing white space.
pub open spec fn trimmed(text: Seq<char>) -> Seq<char> {
    trim_end(trim_start(text))
}

/// Nothing is left of a text made of white space alone.
pub proof fn lemma_trim_blank(text: Seq<char>)
    requires
        forall|i: int| 0 <= i < text.len() ==> is_white_space(#[trigger] text[i]),
    ensures
        trimmed(text).len() == 0,
    decreases text.len(),
{
    if text.len() > 0 {
        assert forall|i: int| 0 <= i < text.drop_first().len() implies is_white_space(
            #[trigger] text.drop_first()[i],
        ) by {
            assert(text.drop_first()[i] == text[i + 1]);
        }
        assert(is_white_space(text[0]));
        lemma_trim_blank(text.drop_first());
        assert(trim_start(text) == trim_start(text.drop_first()));
    } else {
        assert(trim_start(text) == text);
    }
}

/// Relies on String::from_utf8_lossy: well-formed UTF-8 is decoded as it
/// stands, and ill-formed parts are replaced rather than refused.
#[verifier::external_body]
fn decode_lossy(bytes: &[u8]) -> (r: Vec<char>)
    ensures
        r@ == lossy_text(bytes@),
        valid_utf8(bytes@) ==> r@ == decode_utf8(bytes@),
{
    String::from_utf8_lossy(bytes).chars().collect()
}

/// Relies on str::trim: the text without leading and trailing characters of
/// the Unicode White_Space property.
#[verifier::external_body]
pub(crate) fn trim_text(text: &str) -> (r: &str)
    ensures
        r@ == trimmed(text@),
{
    text.trim()
}

/// Relies on collecting characters into a `String`, which keeps them in order.
#[verifier::external_body]
fn text_from_chars(chars: &Vec<char>) -> (r: String)
    ensures
        r@ == chars@,
{
    chars.iter().collect()
}

/// Splits `text` into newline-terminated lines, continuing from the
/// completed `lines` and the unterminated `partial` line: the result is the
/// completed lines, each with its newline, and what is left unterminated.
pub open spec fn feed(lines: Seq<Seq<char>>, partial: Seq<char>, text: Seq<char>) -> (
    Seq<Seq<char>>,
    Seq<char>,
)
    decreases text.len(),
{
    if text.len() == 0 {
        (lines, partial)
    } else if text[0] == '\n' {
        feed(lines.push(partial.push('\n')), Seq::empty(), text.drop_first())
    } else {
        feed(lines, partial.push(text[0]), text.drop_first())
    }
}

/// Feeding two texts one after the other is feeding their concatenation.
pub proof fn lemma_feed_concat(
    lines: Seq<Seq<char>>,
    partial: Seq<char>,
    a: Seq<char>,
    b: Seq<char>,
)
    ensures
        feed(lines, partial, a + b) == feed(feed(lines, partial, a).0, feed(lines, partial, a).1, b),
    decreases a.len(),
{
    if a.len() == 0 {
        assert(a + b =~= b);
    } else {
        assert((a + b)[0] == a[0]);
        assert((a + b).drop_first() =~= a.drop_first() + b);
        if a[0] == '\n' {
            lemma_feed_concat(lines.push(partial.push('\n')), Seq::empty(), a.drop_first(), b);
        } else {
            lemma_feed_concat(lines, partial.push(a[0]), a.drop_first(), b);
        }
    }
}

/// Lines already completed stay in front of those that a text completes.
pub proof fn lemma_feed_prefix(lines: Seq<Seq<char>>, partial: Seq<char>, text: Seq<char>)
    ensures
        feed(lines, partial, text).0 == lines + feed(Seq::empty(), partial, text).0,
        feed(lines, partial, text).1 == feed(Seq::empty(), partial, text).1,
    decreases text.len(),
{
    if text.len() == 0 {
        assert(lines + Seq::<Seq<char>>::empty() =~= lines);
    } else if text[0] == '\n' {
        let done = partial.push('\n');
        lemma_feed_prefix(lines.push(done), Seq::empty(), text.drop_first());
        lemma_feed_prefix(seq![done], Seq::empty(), text.drop_first());
        assert(Seq::<Seq<char>>::empty().push(done) =~= seq![done]);
        assert(lines.push(done) =~= lines + seq![done]);
    } else {
        lemma_feed_prefix(lines, partial.push(text[0]), text.drop_first());
    }
}

/// What is left unterminated holds no newline, where the partial line that
/// feeding started from held none.
pub proof fn lemma_feed_pending(lines: Seq<Seq<char>>, partial: Seq<char>, text: Seq<char>)
    requires
        !partial.contains('\n'),
    ensures
        !feed(lines, partial, text).1.contains('\n'),
    decreases text.len(),
{
    if text.len() > 0 {
        if text[0] == '\n' {
            lemma_feed_pending(lines.push(partial.push('\n')), Seq::empty(), text.drop_first());
        } else {
            assert forall|i: int| 0 <= i < partial.push(text[0]).len() implies partial.push(
                text[0],
            )[i] != '\n' by {
                if i < partial.len() {
                    assert(partial[i] != '\n');
                }
            }
            lemma_feed_pending(lines, partial.push(text[0]), text.drop_first());
        }
    }
}

proof fn lemma_feed_one(lines: Seq<Seq<char>>, partial: Seq<char>, c: char)
    ensures
        feed(lines, partial, seq![c]) == (if c == '\n' {
            (lines.push(partial.push('\n')), Seq::<char>::empty())
        } else {
            (lines, partial.push(c))
        }),
{
    assert(seq![c].drop_first() =~= Seq::<char>::empty());
    if c == '\n' {
        assert(feed(lines.push(partial.push('\n')), Seq::empty(), Seq::empty()) == (
            lines.push(partial.push('\n')),
            Seq::<char>::empty(),
        ));
    } else {
        assert(feed(lines, partial.push(c), Seq::empty()) == (lines, partial.push(c)));
    }
}

/// Reassembles newline-terminated lines from text that arrives in pieces.
pub struct LineAssembler {
    buffer: Vec<char>,
}

impl View for LineAssembler {
    type V = Seq<char>;

    /// The text received after the last newline.
    closed spec fn view(&self) -> Seq<char> {
        self.buffer@
    }
}

impl LineAssembler {
    /// The pending text is an unterminated line.
    pub open spec fn wf(&self) -> bool {
        !self@.contains('\n')
    }

    /// An assembler that holds no text.
    pub fn new() -> (r: LineAssembler)
        ensures
            r@ == Seq::<char>::empty(),
            r.wf(),
    {
        LineAssembler { buffer: Vec::new() }
    }

    /// Takes in a piece of text and hands out, in order, the lines that it
    /// completes, each with its newline.
    pub fn push_text(&mut self, text: &Vec<char>) -> (lines: Vec<String>)
        requires
            old(self).wf(),
        ensures
            final(self).wf(),
            (lines@.map_values(|s: String| s@), final(self)@) == feed(Seq::empty(), old(self)@, text@),
    {
        let ghost start = self.buffer@;
        let mut lines: Vec<String> = Vec::new();
        let n = text.len();
        let mut i: usize = 0;
        assert(text@.take(0) =~= Seq::<char>::empty());
        while i < n
            invariant
                n == text@.len(),
                i <= n,
                (lines@.map_values(|s: String| s@), self.buffer@) == feed(
                    Seq::empty(),
                    start,
                    text@.take(i as int),
                ),
            decreases n - i,
        {
            let c = text[i];
            proof {
                let ls = lines@.map_values(|s: String| s@);
                assert(text@.take(i + 1) =~= text@.take(i as int) + seq![c]);
                lemma_feed_concat(Seq::empty(), start, text@.take(i as int), seq![c]);
                lemma_feed_one(ls, self.buffer@, c);
            }
            if c == '\n' {
                self.buffer.push('\n');
                let line = text_from_chars(&self.buffer);
                proof {
                    let ghost before = lines@;
                    assert(before.push(line).map_values(|s: String| s@) =~= before.map_values(
                        |s: String| s@,
                    ).push(line@));
                }
                lines.push(line);
                self.buffer = Vec::new();
            } else {
                self.buffer.push(c);
            }
            i = i + 1;
        }
        assert(text@.take(n as int) =~= text@);
        proof {
            lemma_feed_pending(Seq::empty(), start, text@);
        }
        lines
    }

    /// Takes in bytes read from the device, decoded leniently, and hands out
    /// the lines that they complete.
    pub fn push_bytes(&mut self, bytes: &[u8]) -> (lines: Vec<String>)
        requires
            old(self).wf(),
        ensures
            final(self).wf(),
            (lines@.map_values(|s: String| s@), final(self)@) == feed(
                Seq::empty(),
                old(self)@,
                lossy_text(bytes@),
            ),
    {
        let text = decode_lossy(bytes);
        self.push_text(&text)
    }
}

} // verus!
