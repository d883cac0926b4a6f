//! Rendering of editor.js documents to HTML.
//!
//! A document is a list of blocks; a header block becomes
//! `<h{level}>{text}</h{level}>` and a paragraph block `<p>{text}</p>`, in
//! the order of the blocks. Text is copied as it stands.

use vstd::prelude::*;

verus! {

/// The kind of a block.
#[derive(Clone, Debug)]
pub enum Type {
    Header,
    Paragraph,
}

/// The content of a block.
#[derive(Debug, PartialEq)]
pub enum Data {
    Header { text: String, level: i8 },
    Paragraph { text: String },
}

/// A block of a document.
#[derive(Debug)]
pub struct Block {
    pub block_type: Type,
    pub data: Data,
}

/// An editor.js document.
#[derive(Debug)]
pub struct Output {
    pub time: u128,
    pub blocks: Vec<Block>,
    pub version: String,
}

/// The character of a decimal digit.
pub open spec fn digit_char(d: nat) -> char {
    if d == 0 {
        '0'
    } else if d == 1 {
        '1'
    } else if d == 2 {
        '2'
    } else if d == 3 {
        '3'
    } else if d == 4 {
        '4'
    } else if d == 5 {
        '5'
    } else if d == 6 {
        '6'
    } else if d == 7 {
        '7'
    } else if d == 8 {
        '8'
    } else {
        '9'
    }
}

/// The decimal digits of `n`, without leading zeros.
pub open spec fn decimal(n: nat) -> Seq<char>
    decreases n,
{
    if n < 10 {
        seq![digit_char(n)]
    } else {
        decimal(n / 10) + seq![digit_char(n % 10)]
    }
}

/// The decimal text of an integer, with a leading `-` when it is negative.
pub open spec fn int_text(v: int) -> Seq<char> {
    if v < 0 {
        seq!['-'] + decimal((-v) as nat)
    } else {
        decimal(v as nat)
    }
}

/// The HTML of one block's content.
pub open spec fn block_html(data: Data) -> Seq<char> {
    match data {
        Data::Header { text, level } => "<h"@ + int_text(level as int) + ">"@ + text@ + "</h"@
            + int_text(level as int) + ">"@,
        Data::Paragraph { text } => "<p>"@ + text@ + "</p>"@,
    }
}

/// The HTML of a list of blocks: their HTML, one after the other.
pub open spec fn blocks_html(blocks: Seq<Block>) -> Seq<char>
    decreases blocks.len(),
{
    if blocks.len() == 0 {
        Seq::empty()
    } else {
        blocks_html(blocks.drop_last()) + block_html(blocks.last().data)
    }
}

fn digit_text(d: u8) -> (r: &'static str)
    requires
        d < 10,
    ensures
        r@ == seq![digit_char(d as nat)],
{
    proof {
        reveal_strlit("0");
        reveal_strlit("1");
        reveal_strlit("2");
        reveal_strlit("3");
        reveal_strlit("4");
        reveal_strlit("5");
        reveal_strlit("6");
        reveal_strlit("7");
        reveal_strlit("8");
        reveal_strlit("9");
    }
    if d == 0 {
        "0"
    } else if d == 1 {
        "1"
    } else if d == 2 {
        "2"
    } else if d == 3 {
        "3"
    } else if d == 4 {
        "4"
    } else if d == 5 {
        "5"
    } else if d == 6 {
        "6"
    } else if d == 7 {
        "7"
    } else if d == 8 {
        "8"
    } else {
        "9"
    }
}

/// Appends the decimal digits of `n`.
fn push_decimal(out: &mut String, n: u8)
    ensures
        final(out)@ == old(out)@ + decimal(n as nat),
    decreases n,
{
    if n >= 100 {
        push_decimal(out, n / 10);
        out.append(digit_text(n % 10));
        assert(decimal(n as nat) == decimal((n / 10) as nat) + seq![digit_char((n % 10) as nat)]);
    } else if n >= 10 {
        out.append(digit_text(n / 10));
        out.append(digit_text(n % 10));
        assert(decimal((n / 10) as nat) == seq![digit_char((n / 10) as nat)]);
        assert(decimal(n as nat) == decimal((n / 10) as nat) + seq![digit_char((n % 10) as nat)]);
    } else {
        out.append(digit_text(n));
    }
}

/// The decimal text of a level, as `i8::to_string` writes it.
pub fn level_text(level: i8) -> (r: String)
    ensures
        r@ == int_text(level as int),
{
    let mut out = String::new();
    if level < 0 {
        proof {
            reveal_strlit("-");
        }
        out.append("-");
        let magnitude: u8 = if level == -128 {
            128u8
        } else {
            (-level) as u8
        };
        push_decimal(&mut out, magnitude);
    } else {
        push_decimal(&mut out, level as u8);
    }
    out
}

/// The HTML of one block's content.
pub fn render_block(data: &Data) -> (html: String)
    ensures
        html@ == block_html(*data),
{
    match data {
        Data::Header { text, level } => {
            let l = level_text(*level);
            let mut out = String::from_str("<h");
            out.append(l.as_str());
            out.append(">");
            out.append(text.as_str());
            out.append("</h");
            out.append(l.as_str());
            out.append(">");
            out
        },
        Data::Paragraph { text } => {
            let mut out = String::from_str("<p>");
            out.append(text.as_str());
            out.append("</p>");
            out
        },
    }
}

/// Renders a document: the HTML of its blocks, in order.
pub fn render_output(output: &Output) -> (html: String)
    ensures
        html@ == blocks_html(output.blocks@),
{
    let mut html = String::new();
    let mut i: usize = 0;
    while i < output.blocks.len()
        invariant
            i <= output.blocks@.len(),
            html@ == blocks_html(output.blocks@.take(i as int)),
        decreases output.blocks@.len() - i,
    {
        let part = render_block(&output.blocks[i].data);
        html.append(part.as_str());
        assert(output.blocks@.take(i + 1).drop_last() =~= output.blocks@.take(i as int));
        i = i + 1;
    }
    assert(output.blocks@.take(i as int) =~= output.blocks@);
    html
}

/// A text without its line feeds: the other characters, in order.
pub open spec fn stripped(text: Seq<char>) -> Seq<char> {
    text.filter(|c: char| c != '\n')
}

/// Calls `regex::Regex::new` with the pattern `(\n)`, which matches a single
/// line feed, and then `Regex::replace_all` with an empty replacement on
/// `text`. The contract claims that this removes every line feed and keeps
/// every other character in order (the pattern is valid, so `new` succeeds).
#[verifier::external_body]
fn regex_strip_newlines(text: &str) -> (r: String)
    ensures
        r@ == stripped(text@),
{
    regex::Regex::new(r"(\n)").unwrap().replace_all(text, "").to_string()
}

/// The text of a document without its line feeds, ready to be parsed.
pub fn strip_newlines(text: &str) -> (r: String)
    ensures
        r@ == stripped(text@),
{
    regex_strip_newlines(text)
}

/// Rendering is compositional: the HTML of two lists of blocks, one after the
/// other, is the HTML of the first followed by the HTML of the second.
pub proof fn lemma_render_concat(a: Seq<Block>, b: Seq<Block>)
    ensures
        blocks_html(a + b) == blocks_html(a) + blocks_html(b),
    decreases b.len(),
{
    if b.len() == 0 {
        assert(a + b =~= a);
        assert(blocks_html(a) + blocks_html(b) =~= blocks_html(a));
    } else {
        lemma_render_concat(a, b.drop_last());
        assert((a + b).drop_last() =~= a + b.drop_last());
        assert((a + b).last() == b.last());
        assert(blocks_html(a + b) == blocks_html(a + b.drop_last()) + block_html(b.last().data));
        assert(blocks_html(a) + blocks_html(b) =~= blocks_html(a) + blocks_html(b.drop_last())
            + block_html(b.last().data));
    }
}

/// Stripping removes every line feed and nothing else: no line feed is left,
/// every other character of the text is kept, and the result is as long as
/// the text without its line feeds.
pub proof fn lemma_stripped_text(text: Seq<char>)
    ensures
        forall|i: int| 0 <= i < stripped(text).len() ==> #[trigger] stripped(text)[i] != '\n',
        forall|i: int|
            0 <= i < text.len() && text[i] != '\n' ==> stripped(text).contains(#[trigger] text[i]),
        stripped(text).len() <= text.len(),
        !text.contains('\n') ==> stripped(text) == text,
    decreases text.len(),
{
    broadcast use vstd::seq_lib::group_filter_ensures;

    if text.len() > 0 {
        lemma_stripped_text(text.drop_last());
        reveal(Seq::filter);
        if !text.contains('\n') {
            assert(!text.drop_last().contains('\n')) by {
                if text.drop_last().contains('\n') {
                    let j: int = choose|j: int| 0 <= j < text.drop_last().len() && text.drop_last()[j] == '\n';
                    assert(text[j] == '\n');
                }
            }
            assert(text.last() != '\n') by {
                assert(text[text.len() - 1] == text.last());
            }
            assert(text.drop_last().push(text.last()) =~= text);
        }
    } else {
        reveal(Seq::filter);
        assert(stripped(text) =~= text);
    }
}

/// The value of a text of decimal digits, read from left to right.
pub open spec fn digits_value(s: Seq<char>) -> int
    decreases s.len(),
{
    if s.len() == 0 {
        0
    } else {
        digits_value(s.drop_last()) * 10 + ((s.last() as int) - ('0' as int))
    }
}

/// A character that is a decimal digit.
pub open spec fn is_digit(c: char) -> bool {
    '0' <= c && c <= '9'
}

/// The character of a decimal digit is a digit, reads back as that digit, and
/// is `0` only for zero.
pub proof fn lemma_digit_char(d: nat)
    requires
        d < 10,
    ensures
        is_digit(digit_char(d)),
        (digit_char(d) as int) - ('0' as int) == d,
        d > 0 ==> digit_char(d) != '0',
{
}

/// The decimal text of a number is made of digits, has no leading zero, and
/// reads back as the number.
pub proof fn lemma_decimal_reads_back(n: nat)
    ensures
        decimal(n).len() >= 1,
        forall|i: int| 0 <= i < decimal(n).len() ==> is_digit(#[trigger] decimal(n)[i]),
        n > 0 ==> decimal(n)[0] != '0',
        digits_value(decimal(n)) == n,
    decreases n,
{
    if n < 10 {
        lemma_digit_char(n);
        let d = decimal(n);
        assert(d == seq![digit_char(n)]);
        assert(d.drop_last() =~= Seq::<char>::empty());
        assert(digits_value(d.drop_last()) == 0);
        assert(d.last() == digit_char(n));
    } else {
        lemma_decimal_reads_back(n / 10);
        lemma_digit_char(n % 10);
        let d = decimal(n);
        assert(d == decimal(n / 10) + seq![digit_char(n % 10)]);
        assert(d.drop_last() =~= decimal(n / 10));
        assert(d[0] == decimal(n / 10)[0]);
        assert forall|i: int| 0 <= i < d.len() implies is_digit(#[trigger] d[i]) by {
            if i < d.len() - 1 {
                assert(d[i] == decimal(n / 10)[i]);
            }
        }
        assert((n / 10) * 10 + n % 10 == n);
    }
}

/// The text of a level reads back as the level: a `-` before the digits of
/// its magnitude when it is negative, and the digits alone otherwise.
pub proof fn lemma_int_text_reads_back(v: int)
    ensures
        v < 0 ==> int_text(v)[0] == '-' && digits_value(int_text(v).drop_first()) == -v,
        v >= 0 ==> is_digit(int_text(v)[0]) && digits_value(int_text(v)) == v,
        int_text(v).len() >= 1,
{
    if v < 0 {
        lemma_decimal_reads_back((-v) as nat);
        assert(int_text(v).drop_first() =~= decimal((-v) as nat));
    } else {
        lemma_decimal_reads_back(v as nat);
    }
}

/// A paragraph renders to `<p>`, then its whole text, then `</p>`: the HTML
/// is exactly 7 characters longer than the text, and the text stands in it
/// in full between the two tags.
pub proof fn lemma_paragraph_html(text: String)
    ensures
        block_html(Data::Paragraph { text }).len() == text@.len() + "<p>"@.len() + "</p>"@.len(),
        block_html(Data::Paragraph { text }).subrange(0, "<p>"@.len() as int) == "<p>"@,
        block_html(Data::Paragraph { text }).subrange(
            "<p>"@.len() as int,
            ("<p>"@.len() + text@.len()) as int,
        ) == text@,
        block_html(Data::Paragraph { text }).subrange(
            ("<p>"@.len() + text@.len()) as int,
            block_html(Data::Paragraph { text }).len() as int,
        ) == "</p>"@,
        "<p>"@.len() == 3 && "</p>"@.len() == 4,
{
    reveal_strlit("<p>");
    reveal_strlit("</p>");
    let h = block_html(Data::Paragraph { text });
    assert(h == "<p>"@ + text@ + "</p>"@);
    assert(h.subrange(0, 3) =~= "<p>"@);
    let n: int = text@.len() as int;
    assert(h.subrange(3, 3 + n) =~= text@);
    assert(h.subrange(3 + n, h.len() as int) =~= "</p>"@);
}

/// Two paragraphs render alike only when their texts are the same: no part of
/// a paragraph's text is lost in its HTML.
pub proof fn lemma_paragraph_html_injective(a: String, b: String)
    requires
        block_html(Data::Paragraph { text: a }) == block_html(Data::Paragraph { text: b }),
    ensures
        a@ == b@,
{
    lemma_paragraph_html(a);
    lemma_paragraph_html(b);
}

/// A header renders to `<h`, its level's text, `>`, its whole text, `</h`,
/// the level's text again and `>`: the text stands in full after the opening
/// tag, and the level's text, which reads back as the level, stands in both
/// tags.
pub proof fn lemma_header_html(text: String, level: i8)
    ensures
        ({
            let h = block_html(Data::Header { text, level });
            let l = int_text(level as int);
            let n: int = l.len() as int;
            let t: int = text@.len() as int;
            &&& h.len() == t + 2 * n + 7
            &&& h.subrange(0, 2) == "<h"@
            &&& h.subrange(2, 2 + n) == l
            &&& h[2 + n] == '>'
            &&& h.subrange(3 + n, 3 + n + t) == text@
            &&& h.subrange(3 + n + t, 6 + n + t) == "</h"@
            &&& h.subrange(6 + n + t, 6 + 2 * n + t) == l
            &&& h[h.len() - 1] == '>'
        }),
        level < 0 ==> int_text(level as int)[0] == '-' && digits_value(
            int_text(level as int).drop_first(),
        ) == -level,
        level >= 0 ==> digits_value(int_text(level as int)) == level,
{
    reveal_strlit("<h");
    reveal_strlit(">");
    reveal_strlit("</h");
    lemma_int_text_reads_back(level as int);
    let h = block_html(Data::Header { text, level });
    let l = int_text(level as int);
    let t = text@;
    let n: int = l.len() as int;
    let m: int = t.len() as int;
    assert(h == "<h"@ + l + ">"@ + t + "</h"@ + l + ">"@);
    assert(h.subrange(0, 2) =~= "<h"@);
    assert(h.subrange(2, 2 + n) =~= l);
    assert(h[2 + n] == '>');
    assert(h.subrange(3 + n, 3 + n + m) =~= t);
    assert(h.subrange(3 + n + m, 6 + n + m) =~= "</h"@);
    assert(h.subrange(6 + n + m, 6 + 2 * n + m) =~= l);
}

/// A document of one block renders to that block's HTML.
pub proof fn lemma_render_single(b: Block)
    ensures
        blocks_html(seq![b]) == block_html(b.data),
{
    let s = seq![b];
    assert(s.drop_last() =~= Seq::<Block>::empty());
    assert(blocks_html(Seq::<Block>::empty()) == Seq::<char>::empty());
    assert(s.last() == b);
    assert(Seq::<char>::empty() + block_html(b.data) =~= block_html(b.data));
}

} // verus!
