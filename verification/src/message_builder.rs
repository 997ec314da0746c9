//! Builds one chat message in two synchronized representations: a plain-text
//! accumulator and an HTML accumulator, plus a LIFO stack of open inline
//! styles and at most one recorded primary link.
//!
//! Every operation is specified against [`MessageModel`], the mathematical
//! state of the builder, so that the exact text produced for an event is
//! pinned down by the contracts.

use vstd::prelude::*;
use vstd::string::StrSliceExecFns;
use vstd::string::StringExecFns;

use crate::escape::escape_html;
use crate::escape::lemma_escape_append;
use crate::escape::lemma_escape_push;
use crate::strings::push_char;

verus! {

/// One kind of open inline style span.
#[derive(Clone, Copy, Debug, PartialEq, Eq, Structural)]
pub enum Style {
    Bold,
    Code,
    Span,
}

/// The closing tag of a style.
pub open spec fn close_tag(s: Style) -> Seq<char> {
    match s {
        Style::Bold => "</b>"@,
        Style::Code => "</code>"@,
        Style::Span => "</span>"@,
    }
}

impl Style {
    /// The closing tag written to the HTML accumulator when this style ends.
    pub fn close(&self) -> (r: &'static str)
        ensures
            r@ == close_tag(*self),
    {
        match self {
            Style::Bold => "</b>",
            Style::Code => "</code>",
            Style::Span => "</span>",
        }
    }
}

/// The mathematical state of a [`MessageBuilder`].
#[verifier::ext_equal]
pub struct MessageModel {
    /// Plain-text accumulator.
    pub plain: Seq<char>,
    /// HTML accumulator.
    pub html: Seq<char>,
    /// Stack of currently open styles, innermost last.
    pub styles: Seq<Style>,
    /// The recorded primary link, if any.
    pub url: Option<Seq<char>>,
}

impl MessageModel {
    /// The state of a freshly created builder.
    pub open spec fn empty() -> MessageModel {
        MessageModel { plain: Seq::empty(), html: Seq::empty(), styles: Seq::empty(), url: None }
    }

    /// Literal text: appended verbatim to plain, escaped into HTML.
    pub open spec fn written(self, s: Seq<char>) -> MessageModel {
        MessageModel { plain: self.plain + s, html: self.html + escape_html(s), ..self }
    }

    /// A bold span opens.
    pub open spec fn bolded(self) -> MessageModel {
        MessageModel { html: self.html + "<b>"@, styles: self.styles.push(Style::Bold), ..self }
    }

    /// A code span opens.
    pub open spec fn coded(self) -> MessageModel {
        MessageModel {
            html: self.html + "<code>"@,
            styles: self.styles.push(Style::Code),
            ..self
        }
    }

    /// A colored span opens; the color value is inserted as given.
    pub open spec fn colored(self, color: Seq<char>) -> MessageModel {
        MessageModel {
            html: self.html + "<span style=\"color: "@ + color + "\">"@,
            styles: self.styles.push(Style::Span),
            ..self
        }
    }

    /// The innermost open style closes.
    pub open spec fn closed_last(self) -> MessageModel {
        if self.styles.len() == 0 {
            self
        } else {
            MessageModel {
                html: self.html + close_tag(self.styles.last()),
                styles: self.styles.drop_last(),
                ..self
            }
        }
    }

    /// Every open style closes, innermost first.
    pub open spec fn closed_all(self) -> MessageModel
        decreases self.styles.len(),
    {
        if self.styles.len() == 0 {
            self
        } else {
            self.closed_last().closed_all()
        }
    }

    /// The text between the brackets of a tag.
    pub open spec fn tag_text(label: Seq<char>, glyph: Option<Seq<char>>) -> Seq<char> {
        match glyph {
            Some(g) => "["@ + g + " "@ + label + "]"@,
            None => "["@ + label + "]"@,
        }
    }

    /// A bracketed, bold tag, optionally prefixed by a glyph.
    pub open spec fn tagged(self, label: Seq<char>, glyph: Option<Seq<char>>) -> MessageModel {
        self.bolded().written(MessageModel::tag_text(label, glyph)).closed_last()
    }

    /// A link: plain gets the text alone, HTML gets an anchor whose text is
    /// inserted as given.
    pub open spec fn linked(self, text: Seq<char>, href: Seq<char>) -> MessageModel {
        MessageModel {
            plain: self.plain + text,
            html: self.html + "<a href=\""@ + href + "\">"@ + text + "</a>"@,
            ..self
        }
    }

    /// A link that is also recorded as the primary link (last call wins).
    pub open spec fn main_linked(self, text: Seq<char>, href: Seq<char>) -> MessageModel {
        MessageModel { url: Some(href), ..self.linked(text, href) }
    }

    /// The final plain text: the primary link, when recorded, is appended
    /// once after a separator glyph.
    pub open spec fn built_plain(self) -> Seq<char> {
        match self.url {
            Some(u) => self.plain + " ⋅ "@ + u,
            None => self.plain,
        }
    }
}

/// Written text is carried faithfully by both representations: the plain
/// accumulator gains exactly `s` as a contiguous substring at its tail, and
/// the markup gains the escape of `s`, whose HTML-unescape reconstructs `s`.
pub proof fn lemma_written_faithful(m: MessageModel, s: Seq<char>)
    ensures
        m.written(s).plain.subrange(m.plain.len() as int, m.plain.len() + s.len() as int) == s,
        m.written(s).html == m.html + escape_html(s),
        crate::escape::unescape_html(escape_html(s)) == s,
{
    assert(m.written(s).plain.subrange(m.plain.len() as int, m.plain.len() + s.len() as int) =~= s);
    crate::escape::lemma_unescape_escape(s);
}

/// Writing two pieces of text in a row writes their concatenation.
pub proof fn lemma_written_merge(m: MessageModel, a: Seq<char>, b: Seq<char>)
    ensures
        m.written(a).written(b) == m.written(a + b),
{
    lemma_escape_append(a, b);
    assert(m.written(a).written(b) =~= m.written(a + b));
}

/// The builder: accumulates the two representations of one message.
pub struct MessageBuilder {
    /// HTML representation.
    pub html: String,
    /// Plain-text representation.
    pub plain: String,
    style_stack: Vec<Style>,
    /// Primary link recorded by [`MessageBuilder::main_link`].
    pub url: Option<String>,
}

impl View for MessageBuilder {
    type V = MessageModel;

    closed spec fn view(&self) -> MessageModel {
        MessageModel {
            plain: self.plain@,
            html: self.html@,
            styles: self.style_stack@,
            url: self.url.deep_view(),
        }
    }
}

/// A completed message: the two final representations.
pub struct MessageContent {
    /// Plain text, with the primary link appended when one was recorded.
    pub plain: String,
    /// HTML markup.
    pub html: String,
}

impl MessageBuilder {
    /// A fresh, empty builder.
    pub fn new() -> (r: MessageBuilder)
        ensures
            r@ == MessageModel::empty(),
    {
        let r = MessageBuilder {
            html: String::new(),
            plain: String::new(),
            style_stack: Vec::new(),
            url: None,
        };
        proof {
            assert(r@ =~= MessageModel::empty());
        }
        r
    }

    /// Appends `s` verbatim to plain and HTML-escaped to markup.
    pub fn write_str(&mut self, s: &str)
        ensures
            final(self)@ == old(self)@.written(s@),
    {
        self.plain.append(s);
        let ghost html0 = self.html@;
        let len = s.unicode_len();
        let mut i: usize = 0;
        while i < len
            invariant
                i <= len,
                len == s@.len(),
                self.html@ == html0 + escape_html(s@.subrange(0, i as int)),
                self.plain@ == old(self)@.plain + s@,
                self.style_stack@ == old(self)@.styles,
                self.url.deep_view() == old(self)@.url,
            decreases len - i,
        {
            let ghost pre = s@.subrange(0, i as int);
            let c = s.get_char(i);
            if c == '>' {
                self.html.append("&gt;");
            } else if c == '<' {
                self.html.append("&lt;");
            } else if c == '&' {
                self.html.append("&amp;");
            } else if c == '\'' {
                self.html.append("&#39;");
            } else if c == '"' {
                self.html.append("&quot;");
            } else {
                push_char(&mut self.html, c);
            }
            proof {
                lemma_escape_push(pre, c);
                assert(s@.subrange(0, i + 1 as int) =~= pre.push(c));
                assert(self.html@ =~= html0 + escape_html(s@.subrange(0, i + 1 as int)));
            }
            i += 1;
        }
        proof {
            assert(s@.subrange(0, len as int) =~= s@);
            assert(self@ =~= old(self)@.written(s@));
        }
    }

    /// Opens a bold span.
    pub fn bold(&mut self)
        ensures
            final(self)@ == old(self)@.bolded(),
    {
        self.html.append("<b>");
        self.style_stack.push(Style::Bold);
        proof {
            assert(self@ =~= old(self)@.bolded());
        }
    }

    /// Opens a code span.
    pub fn code(&mut self)
        ensures
            final(self)@ == old(self)@.coded(),
    {
        self.html.append("<code>");
        self.style_stack.push(Style::Code);
        proof {
            assert(self@ =~= old(self)@.coded());
        }
    }

    /// Opens a colored span; the color value is inserted as given.
    pub fn color(&mut self, color: &str)
        ensures
            final(self)@ == old(self)@.colored(color@),
    {
        self.html.append("<span style=\"color: ");
        self.html.append(color);
        self.html.append("\">");
        self.style_stack.push(Style::Span);
        proof {
            assert(self@ =~= old(self)@.colored(color@));
        }
    }

    /// Writes a bracketed, bold label, optionally prefixed by a glyph.
    pub fn tag(&mut self, tag: &str, glyph: Option<&str>)
        ensures
            final(self)@ == old(self)@.tagged(tag@, glyph.deep_view()),
    {
        self.bold();
        self.write_str("[");
        match glyph {
            Some(g) => {
                self.write_str(g);
                self.write_str(" ");
            },
            None => {},
        }
        self.write_str(tag);
        self.write_str("]");
        self.close_last();
        proof {
            let m = old(self)@.bolded();
            match glyph.deep_view() {
                Some(g) => {
                    lemma_written_merge(m, "["@, g);
                    lemma_written_merge(m, "["@ + g, " "@);
                    lemma_written_merge(m, "["@ + g + " "@, tag@);
                    lemma_written_merge(m, "["@ + g + " "@ + tag@, "]"@);
                },
                None => {
                    lemma_written_merge(m, "["@, tag@);
                    lemma_written_merge(m, "["@ + tag@, "]"@);
                },
            }
            assert(self@ =~= old(self)@.tagged(tag@, glyph.deep_view()));
        }
    }

    /// Writes a link: the plain text gets `text` alone, the HTML gets an
    /// anchor pointing at `href`.
    pub fn link(&mut self, text: &str, href: &str)
        ensures
            final(self)@ == old(self)@.linked(text@, href@),
    {
        self.plain.append(text);
        self.html.append("<a href=\"");
        self.html.append(href);
        self.html.append("\">");
        self.html.append(text);
        self.html.append("</a>");
        proof {
            assert(self@ =~= old(self)@.linked(text@, href@));
        }
    }

    /// Writes a link and records `href` as the primary link to be appended to
    /// the plain text at build time. A later call replaces the recording.
    pub fn main_link(&mut self, text: &str, href: &str)
        ensures
            final(self)@ == old(self)@.main_linked(text@, href@),
    {
        self.link(text, href);
        self.url = Some(href.to_owned());
        proof {
            assert(self@ =~= old(self)@.main_linked(text@, href@));
        }
    }

    /// Closes the innermost open style. Callers must have a style open.
    pub fn close_last(&mut self)
        requires
            old(self)@.styles.len() > 0,
        ensures
            final(self)@ == old(self)@.closed_last(),
    {
        let style = self.style_stack.pop().unwrap();
        let tag = style.close();
        self.html.append(tag);
        proof {
            assert(self@ =~= old(self)@.closed_last());
        }
    }

    /// Closes every open style, innermost first.
    pub fn close_styles(&mut self)
        ensures
            final(self)@ == old(self)@.closed_all(),
    {
        while self.style_stack.len() != 0
            invariant
                self@.closed_all() == old(self)@.closed_all(),
            decreases self.style_stack@.len(),
        {
            self.close_last();
        }
    }

    /// How many styles are currently open.
    pub fn open_styles(&self) -> (r: usize)
        ensures
            r == self@.styles.len(),
    {
        self.style_stack.len()
    }

    /// Finishes the message: appends the primary link, when one was recorded,
    /// to the plain text after a separator glyph. Callers must have closed
    /// every style first.
    pub fn build(self) -> (r: MessageContent)
        requires
            self@.styles.len() == 0,
        ensures
            r.plain@ == self@.built_plain(),
            r.html@ == self@.html,
    {
        let MessageBuilder { html, mut plain, style_stack: _, url } = self;
        match url {
            Some(u) => {
                plain.append(" ⋅ ");
                plain.append(u.as_str());
            },
            None => {},
        }
        MessageContent { plain, html }
    }
}

} // verus!
