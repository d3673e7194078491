//! What a page is made of once it is parsed: blocks of text with the
//! state of preformatted text worked out, and a button for every link
//! that can be followed. How a block or a button looks is not decided
//! here.

use crate::absolute::spec_resolve;
use crate::address::{url_parse, Address, AddressView, UrlError};
use crate::finger::parser::{ParseError as FingerError, TextElement as FingerElement};
use crate::gemini::link::{Link as GeminiLink, LinkView as GeminiLinkView};
use crate::gemini::parser::{
    Line as GeminiLine, ParseError as GeminiError, TextElement as GeminiElement,
};
use crate::gopher::link::{Link as GopherLink, LinkView as GopherLinkView};
use crate::gopher::parser::{
    Line as GopherLine, ParseError as GopherError, TextElement as GopherElement,
};
use crate::history::History;
use crate::protocols::Scheme;
use crate::text::views;
use vstd::prelude::*;

verus! {

/// One block of a Gemini page.
#[derive(Debug, Clone, PartialEq, Eq)]
pub enum Block {
    H1(String),
    H2(String),
    H3(String),
    ListItem(String),
    /// Text, and whether it stands between two toggle lines.
    Text { text: String, preformatted: bool },
    /// A link line, whole.
    Link(String),
}

/// The mathematical value of a [`Block`].
pub enum BlockView {
    H1(Seq<char>),
    H2(Seq<char>),
    H3(Seq<char>),
    ListItem(Seq<char>),
    Text { text: Seq<char>, preformatted: bool },
    Link(Seq<char>),
}

impl View for Block {
    type V = BlockView;

    open spec fn view(&self) -> BlockView {
        match self {
            Block::H1(t) => BlockView::H1(t@),
            Block::H2(t) => BlockView::H2(t@),
            Block::H3(t) => BlockView::H3(t@),
            Block::ListItem(t) => BlockView::ListItem(t@),
            Block::Text { text, preformatted } => BlockView::Text {
                text: text@,
                preformatted: *preformatted,
            },
            Block::Link(t) => BlockView::Link(t@),
        }
    }
}

/// A link that can be followed.
#[derive(Debug, Clone, PartialEq, Eq)]
pub struct Button {
    /// Where it leads.
    pub address: Address,
    /// What it says.
    pub label: String,
    /// Whether it leaves the three protocols and is handed to the
    /// system's opener.
    pub external: bool,
}

/// The mathematical value of a [`Button`].
pub struct ButtonView {
    pub address: AddressView,
    pub label: Seq<char>,
    pub external: bool,
}

impl View for Button {
    type V = ButtonView;

    open spec fn view(&self) -> ButtonView {
        ButtonView { address: self.address@, label: self.label@, external: self.external }
    }
}

/// The value of a button that may be absent.
pub open spec fn view_button(r: Option<Button>) -> Option<ButtonView> {
    match r {
        Some(b) => Some(b@),
        None => None,
    }
}

/// What a button says: its label, or the address where there is none.
pub open spec fn shown(label: Seq<char>, address: AddressView) -> Seq<char> {
    if label.len() == 0 {
        address.text
    } else {
        label
    }
}

/// A button within the three protocols, with `tag` behind what it says.
pub open spec fn tagged(address: AddressView, label: Seq<char>, tag: Seq<char>) -> ButtonView {
    ButtonView { address, label: shown(label, address) + tag, external: false }
}

/// A button to the web.
pub open spec fn web(address: AddressView, label: Seq<char>) -> ButtonView {
    ButtonView { address, label: shown(label, address) + " [WWW]"@, external: true }
}

/// A button for a relative reference that resolved as `resolved`.
pub open spec fn relative(resolved: Result<AddressView, UrlError>, label: Seq<char>) -> Option<
    ButtonView,
> {
    match resolved {
        Ok(address) => Some(tagged(address, label, Seq::empty())),
        Err(_) => None,
    }
}

/// The button for a link of a Gemini page, in the history `h`. A link to
/// another protocol says so behind its label. A relative reference is
/// resolved as a Gemini reference. A link of an unknown scheme, or one
/// that does not resolve, has no button.
pub open spec fn spec_gemini_button(link: GeminiLinkView, h: Seq<AddressView>)
    -> Option<ButtonView> {
    match link {
        GeminiLinkView::Finger(a, l) => Some(tagged(a, l, " [Finger]"@)),
        GeminiLinkView::Gemini(a, l) => Some(tagged(a, l, Seq::empty())),
        GeminiLinkView::Gopher(a, l) => Some(tagged(a, l, " [Gopher]"@)),
        GeminiLinkView::Http(a, l) => Some(web(a, l)),
        GeminiLinkView::Relative(r, l) => relative(
            spec_resolve(Scheme::Gemini, r, h),
            l,
        ),
        GeminiLinkView::Unknown(_, _) => None,
    }
}

/// The button for a link of a Gopher menu, in the history `h`. A
/// relative reference is resolved as a Gopher reference.
pub open spec fn spec_gopher_button(link: GopherLinkView, h: Seq<AddressView>)
    -> Option<ButtonView> {
    match link {
        GopherLinkView::Gemini(a, l) => Some(tagged(a, l, Seq::empty())),
        GopherLinkView::Gopher(a, l) => Some(tagged(a, l, " [Gopher]"@)),
        GopherLinkView::Http(a, l) => Some(web(a, l)),
        GopherLinkView::Relative(r, l) => relative(
            spec_resolve(Scheme::Gopher, r, h),
            l,
        ),
        GopherLinkView::Unknown(_, _) => None,
    }
}

/// The button for a link line of a Gemini page.
pub open spec fn spec_gemini_link(line: Seq<char>, h: Seq<AddressView>) -> Option<ButtonView> {
    match crate::gemini::link::spec_link(line) {
        Some(link) => spec_gemini_button(link, h),
        None => None,
    }
}

/// The button for a line of a Gopher menu.
pub open spec fn spec_gopher_link(line: Seq<char>, h: Seq<AddressView>) -> Option<ButtonView> {
    match crate::gopher::link::spec_link(line) {
        Some(link) => spec_gopher_button(link, h),
        None => None,
    }
}

/// Builds a button within the three protocols.
pub fn insert_button(address: Address, label: String, tag: &str) -> (r: Button)
    ensures
        r@ == tagged(address@, label@, tag@),
{
    let mut says = if label.as_str().unicode_len() == 0 {
        address.as_str().to_owned()
    } else {
        label
    };
    says.append(tag);
    Button { address, label: says, external: false }
}

/// Builds a button to the web.
pub fn insert_external_button(address: Address, label: String) -> (r: Button)
    ensures
        r@ == web(address@, label@),
{
    let mut says = if label.as_str().unicode_len() == 0 {
        address.as_str().to_owned()
    } else {
        label
    };
    says.append(" [WWW]");
    Button { address, label: says, external: true }
}

/// Builds the button of [`spec_gemini_button`].
pub fn gemini_button(link: GeminiLink, history: &History) -> (r: Option<Button>)
    ensures
        view_button(r) == spec_gemini_button(link@, history@),
{
    proof {
        reveal_strlit("");
        assert(""@ =~= Seq::<char>::empty());
    }
    match link {
        GeminiLink::Finger(a, l) => Some(insert_button(a, l, " [Finger]")),
        GeminiLink::Gemini(a, l) => Some(insert_button(a, l, "")),
        GeminiLink::Gopher(a, l) => Some(insert_button(a, l, " [Gopher]")),
        GeminiLink::Http(a, l) => Some(insert_external_button(a, l)),
        GeminiLink::Relative(r, l) => {
            match crate::absolute::make(r.as_str(), history) {
                Ok(a) => Some(insert_button(a, l, "")),
                Err(_) => None,
            }
        },
        GeminiLink::Unknown(_, _) => None,
    }
}

/// Builds the button of [`spec_gopher_button`].
pub fn gopher_button(link: GopherLink, history: &History) -> (r: Option<Button>)
    ensures
        view_button(r) == spec_gopher_button(link@, history@),
{
    proof {
        reveal_strlit("");
        assert(""@ =~= Seq::<char>::empty());
    }
    match link {
        GopherLink::Gemini(a, l) => Some(insert_button(a, l, "")),
        GopherLink::Gopher(a, l) => Some(insert_button(a, l, " [Gopher]")),
        GopherLink::Http(a, l) => Some(insert_external_button(a, l)),
        GopherLink::Relative(r, l) => {
            match crate::gopher::absolute::make(r.as_str(), history) {
                Ok(a) => Some(insert_button(a, l, "")),
                Err(_) => None,
            }
        },
        GopherLink::Unknown(_, _) => None,
    }
}

/// The button for a link line of a Gemini page, if the line is a link
/// that can be followed.
pub fn gemini_link(link_item: &str, history: &History) -> (r: Option<Button>)
    ensures
        view_button(r) == spec_gemini_link(link_item@, history@),
{
    match GeminiLink::from_str(link_item) {
        Ok(link) => gemini_button(link, history),
        Err(_) => None,
    }
}

/// The button for a line of a Gopher menu, if the line is a link that
/// can be followed.
pub fn gopher_link(link_item: &str, history: &History) -> (r: Option<Button>)
    ensures
        view_button(r) == spec_gopher_link(link_item@, history@),
{
    match GopherLink::from_str(link_item) {
        Ok(link) => gopher_button(link, history),
        Err(_) => None,
    }
}

/// Whether a page of the media type `mime` is a Gemini document, whose
/// lines are headings, lists, links and text. A page of any other type,
/// or of none, is shown as the text it is.
pub open spec fn spec_is_gemini_document(mime: Option<Seq<char>>) -> bool {
    mime == Some("text/gemini"@)
}

/// Decides [`spec_is_gemini_document`].
pub fn is_gemini_document(mime: &Option<String>) -> (r: bool)
    ensures
        r == spec_is_gemini_document(crate::address::view_opt(*mime)),
{
    match mime {
        Some(m) => crate::protocols::same(m.as_str(), "text/gemini"),
        None => false,
    }
}

/// What is left of `lines` from line `i` on begins with that line and
/// goes on with what is left from the next line on.
pub proof fn lemma_rest_of_lines<T>(lines: Seq<T>, i: int)
    requires
        0 <= i < lines.len(),
    ensures
        ({
            let here = lines.subrange(i, lines.len() as int);
            &&& here.len() > 0
            &&& here[0] == lines[i]
            &&& here.subrange(1, here.len() as int) == lines.subrange(i + 1, lines.len() as int)
        }),
{
    let here = lines.subrange(i, lines.len() as int);
    assert(here.subrange(1, here.len() as int) =~= lines.subrange(i + 1, lines.len() as int));
}

/// Where `after` is `before`, or `before` with one item more, the views
/// of `after` followed by `tail` are the views of `before`, the view of
/// that item if there is one, and `tail`.
pub proof fn lemma_collected<T: View>(before: Seq<T>, after: Seq<T>, tail: Seq<T::V>)
    requires
        after == before || (after.len() > 0 && after == before.push(after.last())),
    ensures
        after == before ==> views(after) + tail == views(before) + tail,
        after != before ==> views(after) + tail == views(before) + (seq![after.last()@] + tail),
{
    if after != before {
        assert(views(after) =~= views(before).push(after.last()@));
        assert(views(before).push(after.last()@) + tail =~= views(before) + (seq![
            after.last()@,
        ] + tail));
    }
}

/// The blocks of a Gemini page whose lines are `lines`, where `mono`
/// says whether preformatted text is on at the first of them. A toggle
/// line turns it on or off and is no block itself; a line that was not
/// read is left out.
pub open spec fn spec_gemini_blocks(lines: Seq<Option<GeminiLine>>, mono: bool)
    -> Seq<BlockView>
    decreases lines.len(),
{
    if lines.len() == 0 {
        Seq::empty()
    } else {
        let rest = lines.subrange(1, lines.len() as int);
        match lines[0] {
            Some(GeminiLine::H1(t)) => seq![BlockView::H1(t)]
                + spec_gemini_blocks(rest, mono),
            Some(GeminiLine::H2(t)) => seq![BlockView::H2(t)]
                + spec_gemini_blocks(rest, mono),
            Some(GeminiLine::H3(t)) => seq![BlockView::H3(t)]
                + spec_gemini_blocks(rest, mono),
            Some(GeminiLine::ListItem(t)) => seq![BlockView::ListItem(t)]
                + spec_gemini_blocks(rest, mono),
            Some(GeminiLine::LinkItem(t)) => seq![BlockView::Link(t)]
                + spec_gemini_blocks(rest, mono),
            Some(GeminiLine::Text(t)) => seq![
                BlockView::Text { text: t, preformatted: mono },
            ] + spec_gemini_blocks(rest, mono),
            Some(GeminiLine::MonoText(_)) => spec_gemini_blocks(rest, !mono),
            None => spec_gemini_blocks(rest, mono),
        }
    }
}

/// The blocks of a Gemini page, as [`spec_gemini_blocks`] says, with
/// preformatted text off at the start.
pub fn gemini_content(
    content: Vec<Result<GeminiElement, GeminiError>>,
) -> (r: Vec<Block>)
    ensures
        views(r@) == spec_gemini_blocks(crate::gemini::parser::view_lines(content@), false),
{
    let ghost lines = crate::gemini::parser::view_lines(content@);
    let mut out: Vec<Block> = Vec::new();
    let mut mono = false;
    let n = content.len();
    let mut i: usize = 0;
    assert(lines.subrange(0, n as int) =~= lines);
    assert(views(out@) =~= Seq::<BlockView>::empty());
    while i < n
        invariant
            i <= n,
            n == content.len(),
            lines == crate::gemini::parser::view_lines(content@),
            views(out@) + spec_gemini_blocks(lines.subrange(i as int, n as int), mono)
                == spec_gemini_blocks(lines, false),
        decreases n - i,
    {
        proof {
            lemma_rest_of_lines(lines, i as int);
        }
        let ghost before = out@;
        match &content[i] {
            Ok(GeminiElement::H1(t)) => {
                out.push(Block::H1(t.clone()));
            },
            Ok(GeminiElement::H2(t)) => {
                out.push(Block::H2(t.clone()));
            },
            Ok(GeminiElement::H3(t)) => {
                out.push(Block::H3(t.clone()));
            },
            Ok(GeminiElement::ListItem(t)) => {
                out.push(Block::ListItem(t.clone()));
            },
            Ok(GeminiElement::LinkItem(t)) => {
                out.push(Block::Link(t.clone()));
            },
            Ok(GeminiElement::Text(t)) => {
                out.push(Block::Text { text: t.clone(), preformatted: mono });
            },
            Ok(GeminiElement::MonoText(_)) => {
                mono = !mono;
            },
            Err(_) => {},
        }
        proof {
            lemma_collected(before, out@, spec_gemini_blocks(lines.subrange(i + 1, n as int), mono));
        }
        i += 1;
    }
    assert(views(out@) + Seq::<BlockView>::empty() =~= views(out@));
    out
}

/// The text lines among `lines`, in order.
pub open spec fn spec_text_lines(lines: Seq<Option<GeminiLine>>) -> Seq<
    Seq<char>,
>
    decreases lines.len(),
{
    if lines.len() == 0 {
        Seq::empty()
    } else {
        let rest = lines.subrange(1, lines.len() as int);
        match lines[0] {
            Some(GeminiLine::Text(t)) => seq![t] + spec_text_lines(rest),
            _ => spec_text_lines(rest),
        }
    }
}

/// What is shown of a text file that came over Gemini: its plain text
/// lines, and nothing of the lines that read as anything else.
pub fn gemini_text_content(
    content: Vec<Result<GeminiElement, GeminiError>>,
) -> (r: Vec<String>)
    ensures
        views(r@) == spec_text_lines(crate::gemini::parser::view_lines(content@)),
{
    let ghost lines = crate::gemini::parser::view_lines(content@);
    let mut out: Vec<String> = Vec::new();
    let n = content.len();
    let mut i: usize = 0;
    assert(lines.subrange(0, n as int) =~= lines);
    assert(views(out@) =~= Seq::<Seq<char>>::empty());
    while i < n
        invariant
            i <= n,
            n == content.len(),
            lines == crate::gemini::parser::view_lines(content@),
            views(out@) + spec_text_lines(lines.subrange(i as int, n as int))
                == spec_text_lines(lines),
        decreases n - i,
    {
        proof {
            lemma_rest_of_lines(lines, i as int);
        }
        let ghost before = out@;
        match &content[i] {
            Ok(GeminiElement::Text(t)) => {
                out.push(t.clone());
            },
            _ => {},
        }
        proof {
            lemma_collected(before, out@, spec_text_lines(lines.subrange(i + 1, n as int)));
        }
        i += 1;
    }
    assert(views(out@) + Seq::<Seq<char>>::empty() =~= views(out@));
    out
}

/// A link line whose target does not read as an address becomes a button
/// to the address that the target resolves to as a Gemini reference in
/// the history, and says the label of the line; it has no button where
/// the target does not resolve.
pub proof fn lemma_relative_link_is_resolved(
    target: Seq<char>,
    text: Seq<char>,
    h: Seq<AddressView>,
)
    requires
        crate::gemini::link::writable(target, text),
        url_parse(target) is Err,
    ensures
        spec_gemini_link(crate::gemini::link::link_line(target, text), h) == relative(
            spec_resolve(Scheme::Gemini, target, h),
            text,
        ),
{
    crate::gemini::link::lemma_link_line_reads_back(target, text);
}

/// A link line whose target is a path, while a page of the host `host`
/// is current, becomes a button to what reading that path on that host
/// gives, within the three protocols and with the label of the line and
/// no tag behind it; it has no button where that does not read as an
/// address.
pub proof fn lemma_path_link_stays_on_the_host(
    host: Seq<char>,
    path: Seq<char>,
    text: Seq<char>,
    h: Seq<AddressView>,
)
    requires
        crate::gemini::link::writable(path, text),
        path[0] == '/',
        !seq!['/', '/'].is_prefix_of(path),
        crate::history::current_host(h) == Some(host),
        url_parse(path) is Err,
    ensures
        spec_gemini_link(crate::gemini::link::link_line(path, text), h) == relative(
            crate::address::parsed(Scheme::Gemini.spec_prefix() + host + path),
            text,
        ),
        text.len() > 0 ==> forall|a: AddressView|
            crate::address::parsed(Scheme::Gemini.spec_prefix() + host + path) == Ok::<
                AddressView,
                UrlError,
            >(a) ==> spec_gemini_link(crate::gemini::link::link_line(path, text), h) == Some(
                ButtonView { address: a, label: text, external: false },
            ),
{
    lemma_relative_link_is_resolved(path, text, h);
    crate::absolute::lemma_absolute_forms_agree(Scheme::Gemini, host, path, h);
    assert(text + Seq::<char>::empty() =~= text);
}

/// One block of a Gopher menu.
#[derive(Debug, Clone, PartialEq, Eq)]
pub enum MenuBlock {
    /// Text.
    Text(String),
    /// A line that may be a link: a link item, one that leaves Gopher,
    /// or an image.
    Link(String),
}

/// The mathematical value of a [`MenuBlock`].
pub enum MenuBlockView {
    Text(Seq<char>),
    Link(Seq<char>),
}

impl View for MenuBlock {
    type V = MenuBlockView;

    open spec fn view(&self) -> MenuBlockView {
        match self {
            MenuBlock::Text(t) => MenuBlockView::Text(t@),
            MenuBlock::Link(t) => MenuBlockView::Link(t@),
        }
    }
}

/// The block of one line of a Gopher menu.
pub open spec fn menu_block(line: GopherLine) -> MenuBlockView {
    match line {
        GopherLine::Text(t) => MenuBlockView::Text(t),
        GopherLine::LinkItem(t) => MenuBlockView::Link(t),
        GopherLine::ExternalLinkItem(t) => MenuBlockView::Link(t),
        GopherLine::Image(t) => MenuBlockView::Link(t),
    }
}

/// The blocks of a Gopher menu whose lines are `lines`: one for every
/// line that was read.
pub open spec fn spec_gopher_blocks(lines: Seq<Option<GopherLine>>) -> Seq<
    MenuBlockView,
>
    decreases lines.len(),
{
    if lines.len() == 0 {
        Seq::empty()
    } else {
        let rest = lines.subrange(1, lines.len() as int);
        match lines[0] {
            Some(line) => seq![menu_block(line)] + spec_gopher_blocks(rest),
            None => spec_gopher_blocks(rest),
        }
    }
}

/// The blocks of a Gopher menu, as [`spec_gopher_blocks`] says.
pub fn gopher_content(
    content: Vec<Result<GopherElement, GopherError>>,
) -> (r: Vec<MenuBlock>)
    ensures
        views(r@) == spec_gopher_blocks(crate::gopher::parser::view_lines(content@)),
{
    let ghost lines = crate::gopher::parser::view_lines(content@);
    let mut out: Vec<MenuBlock> = Vec::new();
    let n = content.len();
    let mut i: usize = 0;
    assert(lines.subrange(0, n as int) =~= lines);
    assert(views(out@) =~= Seq::<MenuBlockView>::empty());
    while i < n
        invariant
            i <= n,
            n == content.len(),
            lines == crate::gopher::parser::view_lines(content@),
            views(out@) + spec_gopher_blocks(lines.subrange(i as int, n as int))
                == spec_gopher_blocks(lines),
        decreases n - i,
    {
        proof {
            lemma_rest_of_lines(lines, i as int);
        }
        let ghost before = out@;
        match &content[i] {
            Ok(GopherElement::Text(t)) => {
                out.push(MenuBlock::Text(t.clone()));
            },
            Ok(GopherElement::LinkItem(t)) => {
                out.push(MenuBlock::Link(t.clone()));
            },
            Ok(GopherElement::ExternalLinkItem(t)) => {
                out.push(MenuBlock::Link(t.clone()));
            },
            Ok(GopherElement::Image(t)) => {
                out.push(MenuBlock::Link(t.clone()));
            },
            Err(_) => {},
        }
        proof {
            lemma_collected(before, out@, spec_gopher_blocks(lines.subrange(i + 1, n as int)));
        }
        i += 1;
    }
    assert(views(out@) + Seq::<MenuBlockView>::empty() =~= views(out@));
    out
}

/// The lines among `lines` that were read, in order.
pub open spec fn spec_finger_lines(lines: Seq<Option<Seq<char>>>) -> Seq<Seq<char>>
    decreases lines.len(),
{
    if lines.len() == 0 {
        Seq::empty()
    } else {
        let rest = lines.subrange(1, lines.len() as int);
        match lines[0] {
            Some(t) => seq![t] + spec_finger_lines(rest),
            None => spec_finger_lines(rest),
        }
    }
}

/// What is shown of a Finger response: every line that was read.
pub fn finger_content(
    content: Vec<Result<FingerElement, FingerError>>,
) -> (r: Vec<String>)
    ensures
        views(r@) == spec_finger_lines(crate::finger::parser::view_lines(content@)),
{
    let ghost lines = crate::finger::parser::view_lines(content@);
    let mut out: Vec<String> = Vec::new();
    let n = content.len();
    let mut i: usize = 0;
    assert(lines.subrange(0, n as int) =~= lines);
    assert(views(out@) =~= Seq::<Seq<char>>::empty());
    while i < n
        invariant
            i <= n,
            n == content.len(),
            lines == crate::finger::parser::view_lines(content@),
            views(out@) + spec_finger_lines(lines.subrange(i as int, n as int))
                == spec_finger_lines(lines),
        decreases n - i,
    {
        proof {
            lemma_rest_of_lines(lines, i as int);
        }
        let ghost before = out@;
        match &content[i] {
            Ok(FingerElement::Text(t)) => {
                out.push(t.clone());
            },
            Err(_) => {},
        }
        proof {
            lemma_collected(before, out@, spec_finger_lines(lines.subrange(i + 1, n as int)));
        }
        i += 1;
    }
    assert(views(out@) + Seq::<Seq<char>>::empty() =~= views(out@));
    out
}

} // verus!
