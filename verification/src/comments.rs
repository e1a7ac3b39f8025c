//! Natspec comments: their tags, values, and the queries that rules make on them.
use vstd::prelude::*;

use crate::text::{
    first_index, first_word, first_word_str, has_prefix, lemma_first_index_is,
    lemma_first_index_none, split_once_space, split_once_space_str, starts_with, text_eq, trim,
    trim_start, trim_start_str, trim_str,
};

verus! {

/// The natspec tag of a comment, like the `notice` in `@notice`.
#[derive(Clone, Debug, PartialEq, Eq)]
pub enum CommentTag {
    Title,
    Author,
    Notice,
    Dev,
    Param,
    Return,
    Inheritdoc,
    /// A tag written `@custom:<name>`, holding `<name>`.
    Custom(String),
}

/// A comment tag as a mathematical value.
pub enum TagView {
    Title,
    Author,
    Notice,
    Dev,
    Param,
    Return,
    Inheritdoc,
    Custom(Seq<char>),
}

impl View for CommentTag {
    type V = TagView;

    open spec fn view(&self) -> TagView {
        match self {
            CommentTag::Title => TagView::Title,
            CommentTag::Author => TagView::Author,
            CommentTag::Notice => TagView::Notice,
            CommentTag::Dev => TagView::Dev,
            CommentTag::Param => TagView::Param,
            CommentTag::Return => TagView::Return,
            CommentTag::Inheritdoc => TagView::Inheritdoc,
            CommentTag::Custom(s) => TagView::Custom(s@),
        }
    }
}

/// The tag `@custom:variant`, with which enum variants are documented.
pub open spec fn variant_tag() -> TagView {
    TagView::Custom("variant"@)
}

/// `s` with every leading repetition of `p` removed (`str::trim_start_matches`).
pub open spec fn strip_prefixes(s: Seq<char>, p: Seq<char>) -> Seq<char>
    decreases s.len(),
{
    if p.len() > 0 && has_prefix(s, p) {
        strip_prefixes(s.skip(p.len() as int), p)
    } else {
        s
    }
}

/// The tag that the text after `@` names, if it is a natspec tag.
///
/// Tags are matched after trimming. `custom:<name>` names a custom tag, except that
/// `custom:param` stands for `param` (so that unnamed parameters can be documented).
pub open spec fn tag_from_text(s: Seq<char>) -> Option<TagView> {
    let t = trim(s);
    if t == "title"@ {
        Some(TagView::Title)
    } else if t == "author"@ {
        Some(TagView::Author)
    } else if t == "notice"@ {
        Some(TagView::Notice)
    } else if t == "dev"@ {
        Some(TagView::Dev)
    } else if t == "param"@ {
        Some(TagView::Param)
    } else if t == "return"@ {
        Some(TagView::Return)
    } else if t == "inheritdoc"@ {
        Some(TagView::Inheritdoc)
    } else if has_prefix(t, "custom:"@) {
        let c = trim(strip_prefixes(t, "custom:"@));
        if c == "param"@ {
            Some(TagView::Param)
        } else {
            Some(TagView::Custom(c))
        }
    } else {
        None
    }
}

/// The view of an optional tag.
pub open spec fn opt_tag_view(t: Option<CommentTag>) -> Option<TagView> {
    match t {
        Some(t) => Some(t@),
        None => None,
    }
}

impl CommentTag {
    /// The tag `@custom:variant`.
    pub fn variant() -> (r: CommentTag)
        ensures
            r@ == variant_tag(),
    {
        CommentTag::Custom(String::from_str("variant"))
    }

    /// A copy of the tag.
    pub fn duplicate(&self) -> (r: CommentTag)
        ensures
            r == *self,
    {
        match self {
            CommentTag::Title => CommentTag::Title,
            CommentTag::Author => CommentTag::Author,
            CommentTag::Notice => CommentTag::Notice,
            CommentTag::Dev => CommentTag::Dev,
            CommentTag::Param => CommentTag::Param,
            CommentTag::Return => CommentTag::Return,
            CommentTag::Inheritdoc => CommentTag::Inheritdoc,
            CommentTag::Custom(s) => CommentTag::Custom(s.clone()),
        }
    }

    /// Whether two tags are the same tag.
    pub fn same(&self, other: &CommentTag) -> (r: bool)
        ensures
            r == (self@ == other@),
    {
        match (self, other) {
            (CommentTag::Title, CommentTag::Title) => true,
            (CommentTag::Author, CommentTag::Author) => true,
            (CommentTag::Notice, CommentTag::Notice) => true,
            (CommentTag::Dev, CommentTag::Dev) => true,
            (CommentTag::Param, CommentTag::Param) => true,
            (CommentTag::Return, CommentTag::Return) => true,
            (CommentTag::Inheritdoc, CommentTag::Inheritdoc) => true,
            (CommentTag::Custom(a), CommentTag::Custom(b)) => text_eq(a.as_str(), b.as_str()),
            _ => false,
        }
    }

    /// The tag that `s` (the text after `@`) names, or `None` if it names no natspec tag.
    pub fn from_str(s: &str) -> (r: Option<CommentTag>)
        ensures
            opt_tag_view(r) == tag_from_text(s@),
    {
        let t = trim_str(s);
        if text_eq(t, "title") {
            Some(CommentTag::Title)
        } else if text_eq(t, "author") {
            Some(CommentTag::Author)
        } else if text_eq(t, "notice") {
            Some(CommentTag::Notice)
        } else if text_eq(t, "dev") {
            Some(CommentTag::Dev)
        } else if text_eq(t, "param") {
            Some(CommentTag::Param)
        } else if text_eq(t, "return") {
            Some(CommentTag::Return)
        } else if text_eq(t, "inheritdoc") {
            Some(CommentTag::Inheritdoc)
        } else if starts_with(t, "custom:") {
            let p = "custom:";
            proof {
                reveal_strlit("custom:");
            }
            let mut rest = t;
            while starts_with(rest, p)
                invariant
                    p@ == "custom:"@,
                    p@.len() > 0,
                    strip_prefixes(rest@, p@) == strip_prefixes(t@, p@),
                decreases rest@.len(),
            {
                let n = rest.unicode_len();
                rest = rest.substring_char(p.unicode_len(), n);
            }
            let c = trim_str(rest);
            if text_eq(c, "param") {
                Some(CommentTag::Param)
            } else {
                Some(CommentTag::Custom(c.to_owned()))
            }
        } else {
            None
        }
    }
}

/// A natspec comment: a tag and the text that follows it.
#[derive(Clone, Debug, PartialEq, Eq)]
pub struct Natspec {
    pub tag: CommentTag,
    pub value: String,
}

/// A comment as a mathematical value.
pub struct NatspecView {
    pub tag: TagView,
    pub value: Seq<char>,
}

impl View for Natspec {
    type V = NatspecView;

    open spec fn view(&self) -> NatspecView {
        NatspecView { tag: self.tag@, value: self.value@ }
    }
}

/// The first word of a comment's value and the rest after the first space, once leading
/// whitespace is trimmed (used to read the name in `@param name ...`).
pub open spec fn split_first_word(value: Seq<char>) -> Option<(Seq<char>, Seq<char>)> {
    split_once_space(trim_start(value))
}

/// The comment that a tag and value make, if the tag names a natspec tag.
pub open spec fn comment_from_text(tag: Seq<char>, value: Seq<char>) -> Option<NatspecView> {
    match tag_from_text(tag) {
        Some(t) => Some(NatspecView { tag: t, value }),
        None => None,
    }
}

impl Natspec {
    pub fn new(tag: CommentTag, value: String) -> (r: Natspec)
        ensures
            r.tag == tag,
            r.value == value,
    {
        Natspec { tag, value }
    }

    /// The comment that a parsed doc comment makes: `None` where its tag is no natspec tag.
    pub fn from_doc_comment(tag: &str, value: String) -> (r: Option<Natspec>)
        ensures
            match r {
                Some(c) => comment_from_text(tag@, value@) == Some(c@),
                None => comment_from_text(tag@, value@) is None,
            },
    {
        match CommentTag::from_str(tag) {
            Some(t) => Some(Natspec { tag: t, value }),
            None => None,
        }
    }

    /// Splits the value at its first space, after trimming leading whitespace.
    pub fn split_first_word(&self) -> (r: Option<(&str, &str)>)
        ensures
            match r {
                Some((a, b)) => split_first_word(self.value@) == Some((a@, b@)),
                None => split_first_word(self.value@) is None,
            },
    {
        split_once_space_str(trim_start_str(self.value.as_str()))
    }
}

/// The comments of `s` with tag `t`, in order.
pub open spec fn with_tag(s: Seq<NatspecView>, t: TagView) -> Seq<NatspecView>
    decreases s.len(),
{
    if s.len() == 0 {
        Seq::empty()
    } else if s.last().tag == t {
        with_tag(s.drop_last(), t).push(s.last())
    } else {
        with_tag(s.drop_last(), t)
    }
}

/// The base named by the first `@inheritdoc` comment: the first word of its value.
pub open spec fn inheritdoc_base(s: Seq<NatspecView>) -> Option<Seq<char>> {
    match first_index(s.len() as int, |i: int| s[i].tag == TagView::Inheritdoc) {
        Some(i) => first_word(s[i].value),
        None => None,
    }
}

/// The natspec comments of one item.
#[derive(Clone, Debug, PartialEq, Eq)]
pub struct Comments(pub Vec<Natspec>);

/// The views of natspec comments.
pub open spec fn natspec_views(s: Seq<Natspec>) -> Seq<NatspecView> {
    s.map_values(|c: Natspec| c@)
}

impl View for Comments {
    type V = Seq<NatspecView>;

    open spec fn view(&self) -> Seq<NatspecView> {
        natspec_views(self.0@)
    }
}

/// A borrowed selection of natspec comments.
#[derive(Debug)]
pub struct CommentsRef<'a>(pub Vec<&'a Natspec>);

impl<'a> View for CommentsRef<'a> {
    type V = Seq<NatspecView>;

    open spec fn view(&self) -> Seq<NatspecView> {
        self.0@.map_values(|c: &Natspec| c@)
    }
}

impl<'a> CommentsRef<'a> {
    /// All comments of `comments`.
    pub fn from(comments: &'a Comments) -> (r: CommentsRef<'a>)
        ensures
            r@ == comments@,
    {
        let mut v: Vec<&'a Natspec> = Vec::new();
        let n = comments.0.len();
        for i in 0..n
            invariant
                n == comments.0@.len(),
                v@.len() == i,
                forall|j: int| 0 <= j < i ==> *#[trigger] v@[j] == comments.0@[j],
        {
            v.push(&comments.0[i]);
        }
        let r = CommentsRef(v);
        assert(r@ =~= comments@);
        r
    }

    /// The number of comments.
    pub fn len(&self) -> (r: usize)
        ensures
            r == self@.len(),
    {
        self.0.len()
    }

    /// Whether there are no comments.
    pub fn is_empty(&self) -> (r: bool)
        ensures
            r == (self@.len() == 0),
    {
        self.0.len() == 0
    }

    /// The comment at position `i`.
    pub fn get(&self, i: usize) -> (r: &'a Natspec)
        requires
            i < self@.len(),
        ensures
            r@ == self@[i as int],
    {
        self.0[i]
    }

    /// The comments that carry tag `tag`, in order.
    pub fn include_tag(&self, tag: CommentTag) -> (r: CommentsRef<'a>)
        ensures
            r@ == with_tag(self@, tag@),
    {
        let mut v: Vec<&'a Natspec> = Vec::new();
        let n = self.0.len();
        for i in 0..n
            invariant
                n == self@.len(),
                v@.map_values(|c: &Natspec| c@) == with_tag(self@.take(i as int), tag@),
        {
            let c = self.0[i];
            proof {
                assert(self@.take(i + 1).drop_last() =~= self@.take(i as int));
                assert(self@.take(i + 1).last() == self@[i as int]);
            }
            if c.tag.same(&tag) {
                let ghost before = v@;
                v.push(c);
                assert(v@.map_values(|c: &Natspec| c@) =~= before.map_values(|c: &Natspec| c@).push(
                    c@,
                ));
            }
        }
        assert(self@.take(n as int) =~= self@);
        CommentsRef(v)
    }

    /// The base contract named by the first `@inheritdoc` comment, if there is one and it
    /// names one.
    pub fn find_inheritdoc_base(&self) -> (r: Option<&'a str>)
        ensures
            match r {
                Some(b) => inheritdoc_base(self@) == Some(b@),
                None => inheritdoc_base(self@) is None,
            },
    {
        let n = self.0.len();
        let ghost p = |i: int| self@[i].tag == TagView::Inheritdoc;
        for i in 0..n
            invariant
                n == self@.len(),
                p == (|i: int| self@[i].tag == TagView::Inheritdoc),
                forall|j: int| 0 <= j < i ==> !#[trigger] p(j),
        {
            let c = self.0[i];
            assert(self@[i as int] == c@);
            if c.tag.same(&CommentTag::Inheritdoc) {
                proof {
                    assert(self@[i as int] == c@);
                    assert(p(i as int));
                    lemma_first_index_is(n as int, p, i as int);
                }
                return first_word_str(c.value.as_str());
            }
        }
        proof {
            lemma_first_index_none(n as int, p);
        }
        None
    }
}

} // verus!
