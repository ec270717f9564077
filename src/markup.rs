//! Translation of release notes from markup events to plain terminal text.
use vstd::prelude::*;
use vstd::string::*;
use pulldown_cmark::{Event as CmEvent, TagEnd as CmEnd};

use crate::error::DlError;

verus! {

/// A block or inline construct as it opens or closes.
#[derive(Debug, Clone, Copy, PartialEq, Eq)]
pub enum MdTag {
    Paragraph,
    Heading(u8),
    Table,
    TableHead,
    TableRow,
    TableCell,
    Link,
    CodeBlock,
    Strikethrough,
    Strong,
    List,
    Item,
    /// Any construct without a translation.
    Other,
}

/// One event of a parsed markup body.
#[derive(Debug, Clone, PartialEq, Eq)]
pub enum MdEvent {
    Start(MdTag),
    End(MdTag),
    Text(String),
    Code(String),
    SoftBreak,
    HardBreak,
    /// Any event without a translation.
    Other,
}

#[verifier::external_type_specification]
#[verifier::external_body]
pub struct ExCmarkEvent<'a>(pulldown_cmark::Event<'a>);

#[verifier::external_type_specification]
#[verifier::external_body]
pub struct ExCmarkTagEnd(pulldown_cmark::TagEnd);

/// The events that pulldown-cmark yields for a body, tables enabled.
pub uninterp spec fn cmark_events(body: Seq<char>) -> Seq<MdEvent>;

/// Relies on pulldown_cmark::TagEnd: names the closing construct.
#[verifier::external_body]
fn md_tag(t: pulldown_cmark::TagEnd) -> MdTag {
    match t {
        CmEnd::Paragraph => MdTag::Paragraph,
        CmEnd::Heading(level) => MdTag::Heading(level as u8),
        CmEnd::Table => MdTag::Table,
        CmEnd::TableHead => MdTag::TableHead,
        CmEnd::TableRow => MdTag::TableRow,
        CmEnd::TableCell => MdTag::TableCell,
        CmEnd::Link => MdTag::Link,
        CmEnd::CodeBlock => MdTag::CodeBlock,
        CmEnd::Strikethrough => MdTag::Strikethrough,
        CmEnd::Strong => MdTag::Strong,
        CmEnd::List(_) => MdTag::List,
        CmEnd::Item => MdTag::Item,
        _ => MdTag::Other,
    }
}

/// Relies on pulldown_cmark::Tag::to_end: an opening tag names the same
/// construct as its closing one.
#[verifier::external_body]
fn md_event(e: pulldown_cmark::Event) -> MdEvent {
    match e {
        CmEvent::Start(t) => MdEvent::Start(md_tag(t.to_end())),
        CmEvent::End(t) => MdEvent::End(md_tag(t)),
        CmEvent::Text(s) => MdEvent::Text(s.to_string()),
        CmEvent::Code(s) => MdEvent::Code(s.to_string()),
        CmEvent::SoftBreak => MdEvent::SoftBreak,
        CmEvent::HardBreak => MdEvent::HardBreak,
        _ => MdEvent::Other,
    }
}

/// Relies on pulldown_cmark::Parser::new_ext: parses a body with tables
/// enabled; an empty body yields no event.
#[verifier::external_body]
fn markdown_events(body: &str) -> (r: Vec<MdEvent>)
    ensures
        r@ == cmark_events(body@),
        body@.len() == 0 ==> r@.len() == 0,
{
    let options = pulldown_cmark::Options::ENABLE_TABLES;
    pulldown_cmark::Parser::new_ext(body, options).map(md_event).collect()
}

/// `n` hash marks.
pub open spec fn hashes(n: nat) -> Seq<char> {
    Seq::new(n, |i: int| '#')
}

/// The blank line that separates a block from the text before it.
pub open spec fn block_gap(nonempty: bool, after_item: bool) -> Seq<char> {
    if nonempty && !after_item {
        "\n\n"@
    } else {
        Seq::empty()
    }
}

/// What an opening tag becomes, given whether text was already written and
/// whether the tag directly follows the opening of a list item.
pub open spec fn start_text(t: MdTag, nonempty: bool, after_item: bool) -> Option<Seq<char>> {
    match t {
        MdTag::Paragraph => Some(block_gap(nonempty, after_item)),
        MdTag::Heading(l) => if 1 <= l <= 6 {
            Some(block_gap(nonempty, after_item) + hashes(l as nat) + " "@)
        } else {
            None
        },
        MdTag::Table => Some("\n| - | - |"@),
        MdTag::TableHead | MdTag::TableRow => Some("\n"@),
        MdTag::TableCell => Some("|"@),
        MdTag::Link | MdTag::List => Some(Seq::empty()),
        MdTag::CodeBlock => Some(block_gap(nonempty, after_item) + "```\n"@),
        MdTag::Strikethrough => Some("~~"@),
        MdTag::Strong => Some("**"@),
        MdTag::Item => Some(if nonempty { "\n"@ } else { Seq::empty() } + "* "@),
        MdTag::Other => None,
    }
}

/// What a closing tag becomes.
pub open spec fn end_text(t: MdTag) -> Option<Seq<char>> {
    match t {
        MdTag::TableHead | MdTag::TableRow => Some("|"@),
        MdTag::CodeBlock => Some("\n```"@),
        MdTag::Strikethrough => Some("~~"@),
        MdTag::Strong => Some("**"@),
        MdTag::Other => None,
        _ => Some(Seq::empty()),
    }
}

/// What one event becomes; `None` where it has no translation.
pub open spec fn event_text(e: MdEvent, nonempty: bool, after_item: bool) -> Option<Seq<char>> {
    match e {
        MdEvent::Start(t) => start_text(t, nonempty, after_item),
        MdEvent::End(t) => end_text(t),
        MdEvent::Text(s) => Some(s@),
        MdEvent::Code(c) => Some("`"@ + c@ + "`"@),
        MdEvent::SoftBreak | MdEvent::HardBreak => Some("\n"@),
        MdEvent::Other => None,
    }
}

/// Whether event `i` directly follows the opening of a list item.
pub open spec fn follows_item(evs: Seq<MdEvent>, i: int) -> bool {
    i > 0 && evs[i - 1] == MdEvent::Start(MdTag::Item)
}

/// The text of the first `n` events, or `None` if one of them has no
/// translation.
pub open spec fn render_prefix(evs: Seq<MdEvent>, n: nat) -> Option<Seq<char>>
    decreases n,
{
    if n == 0 {
        Some(Seq::empty())
    } else {
        match render_prefix(evs, (n - 1) as nat) {
            None => None,
            Some(out) => match event_text(evs[n - 1], out.len() > 0, follows_item(evs, n - 1)) {
                None => None,
                Some(f) => Some(out + f),
            },
        }
    }
}

/// The text of a whole event stream.
pub open spec fn rendered(evs: Seq<MdEvent>) -> Option<Seq<char>> {
    render_prefix(evs, evs.len())
}

fn push_tag_start(t: MdTag, nonempty: bool, after_item: bool, out: &mut String) -> (ok: bool)
    ensures
        ok == start_text(t, nonempty, after_item) is Some,
        ok ==> final(out)@ == old(out)@ + start_text(t, nonempty, after_item).unwrap(),
{
    let gap = nonempty && !after_item;
    match t {
        MdTag::Paragraph => {
            if gap {
                out.append("\n\n");
            }
            proof { assert(out@ =~= old(out)@ + block_gap(nonempty, after_item)); }
            true
        },
        MdTag::Heading(l) => {
            if l < 1 || l > 6 {
                return false;
            }
            if gap {
                out.append("\n\n");
            }
            let ghost base = out@;
            let mut i: u8 = 0;
            while i < l
                invariant
                    i <= l,
                    out@ == base + hashes(i as nat),
                decreases l - i,
            {
                out.append("#");
                proof {
                    reveal_strlit("#");
                    assert("#"@ =~= seq!['#']);
                    assert(hashes((i + 1) as nat) =~= hashes(i as nat) + "#"@);
                }
                i = i + 1;
            }
            out.append(" ");
            proof {
                assert(base =~= old(out)@ + block_gap(nonempty, after_item));
                assert(out@ =~= old(out)@ + block_gap(nonempty, after_item) + hashes(l as nat) + " "@);
            }
            true
        },
        MdTag::Table => {
            out.append("\n| - | - |");
            true
        },
        MdTag::TableHead | MdTag::TableRow => {
            out.append("\n");
            true
        },
        MdTag::TableCell => {
            out.append("|");
            true
        },
        MdTag::Link | MdTag::List => {
            proof { assert(out@ =~= old(out)@ + Seq::<char>::empty()); }
            true
        },
        MdTag::CodeBlock => {
            if gap {
                out.append("\n\n");
            }
            out.append("```\n");
            proof { assert(out@ =~= old(out)@ + block_gap(nonempty, after_item) + "```\n"@); }
            true
        },
        MdTag::Strikethrough => {
            out.append("~~");
            true
        },
        MdTag::Strong => {
            out.append("**");
            true
        },
        MdTag::Item => {
            if nonempty {
                out.append("\n");
            }
            out.append("* ");
            proof {
                assert(out@ =~= old(out)@ + (if nonempty { "\n"@ } else { Seq::<char>::empty() } + "* "@));
            }
            true
        },
        MdTag::Other => false,
    }
}

fn push_tag_end(t: MdTag, out: &mut String) -> (ok: bool)
    ensures
        ok == end_text(t) is Some,
        ok ==> final(out)@ == old(out)@ + end_text(t).unwrap(),
{
    match t {
        MdTag::TableHead | MdTag::TableRow => {
            out.append("|");
            true
        },
        MdTag::CodeBlock => {
            out.append("\n```");
            true
        },
        MdTag::Strikethrough => {
            out.append("~~");
            true
        },
        MdTag::Strong => {
            out.append("**");
            true
        },
        MdTag::Other => false,
        _ => {
            proof { assert(out@ =~= old(out)@ + Seq::<char>::empty()); }
            true
        },
    }
}

fn push_event(e: &MdEvent, nonempty: bool, after_item: bool, out: &mut String) -> (ok: bool)
    ensures
        ok == event_text(*e, nonempty, after_item) is Some,
        ok ==> final(out)@ == old(out)@ + event_text(*e, nonempty, after_item).unwrap(),
{
    match e {
        MdEvent::Start(t) => push_tag_start(*t, nonempty, after_item, out),
        MdEvent::End(t) => push_tag_end(*t, out),
        MdEvent::Text(s) => {
            out.append(s.as_str());
            true
        },
        MdEvent::Code(c) => {
            out.append("`");
            out.append(c.as_str());
            out.append("`");
            proof { assert(out@ =~= old(out)@ + ("`"@ + c@ + "`"@)); }
            true
        },
        MdEvent::SoftBreak | MdEvent::HardBreak => {
            out.append("\n");
            true
        },
        MdEvent::Other => false,
    }
}

/// Translates an event stream to terminal text, event by event, failing on
/// the first event without a translation.
pub fn render_events(evs: &Vec<MdEvent>) -> (r: Result<String, DlError>)
    ensures
        match r {
            Ok(s) => rendered(evs@) == Some(s@),
            Err(e) => e == DlError::UnknownMarkup && rendered(evs@) is None,
        },
{
    let mut out = String::new();
    let n = evs.len();
    let mut i: usize = 0;
    while i < n
        invariant
            n == evs@.len(),
            i <= n,
            render_prefix(evs@, i as nat) == Some(out@),
        decreases n - i,
    {
        let nonempty = !out.as_str().is_empty();
        let after_item = i > 0 && matches!(evs[i - 1], MdEvent::Start(MdTag::Item));
        proof {
            if i > 0 {
                if evs@[i - 1] == MdEvent::Start(MdTag::Item) {
                    assert(after_item);
                }
            }
            assert(after_item == follows_item(evs@, i as int));
        }
        let ok = push_event(&evs[i], nonempty, after_item, &mut out);
        if !ok {
            proof { prefix_failure_persists(evs@, (i + 1) as nat, n as nat); }
            return Err(DlError::UnknownMarkup);
        }
        i = i + 1;
    }
    Ok(out)
}

proof fn prefix_failure_persists(evs: Seq<MdEvent>, k: nat, n: nat)
    requires
        k <= n,
        render_prefix(evs, k) is None,
    ensures
        render_prefix(evs, n) is None,
    decreases n - k,
{
    if k < n {
        prefix_failure_persists(evs, k + 1, n);
    }
}

/// Text or a line break inside a paragraph: carries no construct.
pub open spec fn is_plain(e: MdEvent) -> bool {
    e is Text || e is SoftBreak
}

/// The characters that plain events stand for, in order.
pub open spec fn plain_text(evs: Seq<MdEvent>) -> Seq<char>
    decreases evs.len(),
{
    if evs.len() == 0 {
        Seq::empty()
    } else {
        plain_text(evs.drop_last()) + match evs.last() {
            MdEvent::Text(s) => s@,
            _ => "\n"@,
        }
    }
}

proof fn plain_prefix(texts: Seq<MdEvent>, j: nat)
    requires
        j <= texts.len(),
        forall|i: int| 0 <= i < texts.len() ==> is_plain(#[trigger] texts[i]),
    ensures
        render_prefix(
            seq![MdEvent::Start(MdTag::Paragraph)] + texts + seq![MdEvent::End(MdTag::Paragraph)],
            j + 1,
        ) == Some(plain_text(texts.subrange(0, j as int))),
    decreases j,
{
    let evs = seq![MdEvent::Start(MdTag::Paragraph)] + texts + seq![MdEvent::End(MdTag::Paragraph)];
    if j == 0 {
        assert(render_prefix(evs, 0) == Some(Seq::<char>::empty()));
        assert(texts.subrange(0, 0) =~= Seq::<MdEvent>::empty());
        assert(Seq::<char>::empty() + block_gap(false, false) =~= Seq::<char>::empty());
    } else {
        plain_prefix(texts, (j - 1) as nat);
        assert(evs[j as int] == texts[j - 1]);
        assert(texts.subrange(0, j as int).drop_last() =~= texts.subrange(0, j - 1));
        assert(is_plain(texts[j - 1]));
    }
}

/// A paragraph of plain text translates to exactly that text: the
/// translation leaves a body without constructs unchanged.
pub proof fn lemma_plain_paragraph_unchanged(texts: Seq<MdEvent>)
    requires
        forall|i: int| 0 <= i < texts.len() ==> is_plain(#[trigger] texts[i]),
    ensures
        rendered(seq![MdEvent::Start(MdTag::Paragraph)] + texts + seq![MdEvent::End(MdTag::Paragraph)])
            == Some(plain_text(texts)),
{
    let evs = seq![MdEvent::Start(MdTag::Paragraph)] + texts + seq![MdEvent::End(MdTag::Paragraph)];
    let n = texts.len();
    plain_prefix(texts, n);
    assert(texts.subrange(0, n as int) =~= texts);
    assert(evs[n + 1 as int] == MdEvent::End(MdTag::Paragraph));
    assert(evs.len() == n + 2);
    assert(plain_text(texts) + Seq::<char>::empty() =~= plain_text(texts));
}

/// Parses a release body and translates it to terminal text.
pub fn render_body(body: &str) -> (r: Result<String, DlError>)
    ensures
        match r {
            Ok(s) => rendered(cmark_events(body@)) == Some(s@),
            Err(e) => e == DlError::UnknownMarkup && rendered(cmark_events(body@)) is None,
        },
{
    let evs = markdown_events(body);
    render_events(&evs)
}

} // verus!
