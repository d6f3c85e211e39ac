//! The request schema: comment, context, languages, and the requested
//! attributes, together with validating builders.

use crate::types::spec_compatibility;
use crate::types::Attribute;
use crate::types::AttributeCompatibility;
use vstd::prelude::*;
use vstd::string::StringExecFns;
use vstd::utf8::encode_utf8;

verus! {

/// The language codes the service accepts; `Other` carries a code this
/// crate does not know by name.
#[derive(Clone, Debug, PartialEq, Eq, Hash)]
pub enum LanguageCode {
    Arabic,
    Chinese,
    Czech,
    Dutch,
    English,
    French,
    German,
    Hindi,
    Hinglish,
    Indonesian,
    Italian,
    Japanese,
    Korean,
    Polish,
    Portuguese,
    Russian,
    Spanish,
    Swedish,
    Other(String),
}

/// The text type of a comment or context entry; the service currently
/// only supports plain text.
#[derive(Clone, Copy, Debug, PartialEq, Eq, Structural)]
pub enum TextType {
    PlainText,
    Html,
}

impl Default for TextType {
    fn default() -> (r: Self)
        ensures
            r is PlainText,
    {
        TextType::PlainText
    }
}

/// The score type of an attribute; the service currently only supports
/// probabilities.
#[derive(Clone, Copy, Debug, PartialEq, Eq, Structural)]
pub enum ScoreType {
    Probability,
}

impl Default for ScoreType {
    fn default() -> (r: Self)
        ensures
            r is Probability,
    {
        ScoreType::Probability
    }
}

/// Per-attribute scoring options. The optional floating-point score
/// threshold is read only by the HTTP layer and is not part of this
/// model.
#[derive(Clone, Copy, Debug, PartialEq, Eq, Structural)]
pub struct AttributeOptions {
    pub score_type: ScoreType,
}

impl Default for AttributeOptions {
    fn default() -> (r: Self)
        ensures
            r.score_type is Probability,
    {
        AttributeOptions { score_type: ScoreType::Probability }
    }
}

/// The number of bytes of the UTF-8 encoding of a text.
pub open spec fn utf8_len(s: Seq<char>) -> nat {
    encode_utf8(s).len()
}

/// The comment text to analyze.
#[derive(Clone, Debug)]
pub struct Comment {
    pub text: String,
    pub type_: Option<TextType>,
}

impl From<String> for Comment {
    fn from(s: String) -> (r: Comment) {
        Comment { text: s, type_: None }
    }
}

impl vstd::std_specs::convert::FromSpecImpl<String> for Comment {
    open spec fn obeys_from_spec() -> bool {
        true
    }

    open spec fn from_spec(s: String) -> Comment {
        Comment { text: s, type_: None }
    }
}

/// Builder for [`Comment`]; the comment text may not exceed 20 kB.
#[derive(Clone, Debug)]
pub struct CommentBuilder {
    pub text: Option<String>,
    pub type_: Option<Option<TextType>>,
}

/// Whether a comment text, if set, fits the 20 kB limit.
pub open spec fn spec_comment_text_ok(text: Option<String>) -> bool {
    match text {
        Some(s) => utf8_len(s@) <= 20_000,
        None => true,
    }
}

impl Default for CommentBuilder {
    fn default() -> (r: Self)
        ensures
            r.text is None,
            r.type_ is None,
    {
        CommentBuilder { text: None, type_: None }
    }
}

impl CommentBuilder {
    pub fn text(self, value: String) -> (r: Self)
        ensures
            r == (CommentBuilder { text: Some(value), ..self }),
    {
        CommentBuilder { text: Some(value), ..self }
    }

    pub fn type_(self, value: TextType) -> (r: Self)
        ensures
            r == (CommentBuilder { type_: Some(Some(value)), ..self }),
    {
        CommentBuilder { type_: Some(Some(value)), ..self }
    }

    /// The comment text, if set, may not exceed 20 kB.
    pub fn validate(&self) -> (r: Result<(), String>)
        ensures
            r is Ok <==> spec_comment_text_ok(self.text),
            r matches Err(m) ==> m@ == "comment text cannot exceed 20kb"@,
    {
        match &self.text {
            Some(s) => {
                if s.as_str().as_bytes().len() > 20_000 {
                    return Err(String::from_str("comment text cannot exceed 20kb"));
                }
            },
            None => {},
        }
        Ok(())
    }

    /// Builds the comment; fails when the text is missing or too long.
    pub fn build(self) -> (r: Result<Comment, String>)
        ensures
            r is Ok <==> spec_comment_text_ok(self.text) && self.text is Some,
            r matches Ok(c) ==> ({
                &&& self.text matches Some(t) && c.text == t
                &&& c.type_ == or_none(self.type_)
            }),
            !spec_comment_text_ok(self.text) ==> (r matches Err(m) && m@
                == "comment text cannot exceed 20kb"@),
            spec_comment_text_ok(self.text) && self.text is None ==> (r matches Err(m) && m@
                == "comment text must be initialized"@),
    {
        match self.validate() {
            Ok(_) => {},
            Err(m) => {
                return Err(m);
            },
        }
        match self.text {
            Some(t) => Ok(
                Comment {
                    text: t,
                    type_: match self.type_ {
                        Some(v) => v,
                        None => None,
                    },
                },
            ),
            None => Err(String::from_str("comment text must be initialized")),
        }
    }
}

/// The value of a doubly optional builder field: `None` until set.
pub open spec fn or_none<T>(o: Option<Option<T>>) -> Option<T> {
    match o {
        Some(v) => v,
        None => None,
    }
}

/// A context object: text surrounding the comment.
#[derive(Clone, Debug)]
pub struct Entry {
    pub text: String,
    pub type_: Option<TextType>,
}

/// Builder for [`Entry`]; the entry text may not exceed 1 MB.
#[derive(Clone, Debug)]
pub struct EntryBuilder {
    pub text: Option<String>,
    pub type_: Option<Option<TextType>>,
}

/// Whether a context entry text, if set, fits the 1 MB limit.
pub open spec fn spec_entry_text_ok(text: Option<String>) -> bool {
    match text {
        Some(s) => utf8_len(s@) <= 1_000_000,
        None => true,
    }
}

impl Default for EntryBuilder {
    fn default() -> (r: Self)
        ensures
            r.text is None,
            r.type_ is None,
    {
        EntryBuilder { text: None, type_: None }
    }
}

impl EntryBuilder {
    pub fn text(self, value: String) -> (r: Self)
        ensures
            r == (EntryBuilder { text: Some(value), ..self }),
    {
        EntryBuilder { text: Some(value), ..self }
    }

    pub fn type_(self, value: TextType) -> (r: Self)
        ensures
            r == (EntryBuilder { type_: Some(Some(value)), ..self }),
    {
        EntryBuilder { type_: Some(Some(value)), ..self }
    }

    /// The entry text, if set, may not exceed 1 MB.
    pub fn validate(&self) -> (r: Result<(), String>)
        ensures
            r is Ok <==> spec_entry_text_ok(self.text),
            r matches Err(m) ==> m@ == "context entry text cannot exceed 1MB"@,
    {
        match &self.text {
            Some(s) => {
                if s.as_str().as_bytes().len() > 1_000_000 {
                    return Err(String::from_str("context entry text cannot exceed 1MB"));
                }
            },
            None => {},
        }
        Ok(())
    }

    /// Builds the entry; fails when the text is missing or too long.
    pub fn build(self) -> (r: Result<Entry, String>)
        ensures
            r is Ok <==> spec_entry_text_ok(self.text) && self.text is Some,
            r matches Ok(e) ==> ({
                &&& self.text matches Some(t) && e.text == t
                &&& e.type_ == or_none(self.type_)
            }),
            !spec_entry_text_ok(self.text) ==> (r matches Err(m) && m@
                == "context entry text cannot exceed 1MB"@),
            spec_entry_text_ok(self.text) && self.text is None ==> (r matches Err(m) && m@
                == "context entry text must be initialized"@),
    {
        match self.validate() {
            Ok(_) => {},
            Err(m) => {
                return Err(m);
            },
        }
        match self.text {
            Some(t) => Ok(
                Entry {
                    text: t,
                    type_: match self.type_ {
                        Some(v) => v,
                        None => None,
                    },
                },
            ),
            None => Err(String::from_str("context entry text must be initialized")),
        }
    }
}

/// The context of a comment: a list of surrounding entries.
#[derive(Clone, Debug)]
pub struct Context {
    pub entries: Vec<Entry>,
}

/// The request object for the analyze endpoint.
///
/// The requested attributes behave as a map from [`Attribute`] to
/// [`AttributeOptions`]: keys are unique and keep insertion order.
#[derive(Clone, Debug)]
pub struct Request {
    pub comment: Comment,
    pub context: Option<Context>,
    pub requested_attributes: Vec<(Attribute, AttributeOptions)>,
    pub span_annotations: Option<bool>,
    pub languages: Option<Vec<LanguageCode>>,
    pub do_not_store: Option<bool>,
    pub client_token: Option<String>,
    pub session_id: Option<String>,
    pub community_id: Option<String>,
}

/// The attribute keys of a requested-attributes list, in order.
pub open spec fn attr_keys(s: Seq<(Attribute, AttributeOptions)>) -> Seq<Attribute> {
    s.map_values(|p: (Attribute, AttributeOptions)| p.0)
}

/// Whether a requested-attributes list has pairwise distinct keys.
pub open spec fn attr_keys_unique(s: Seq<(Attribute, AttributeOptions)>) -> bool {
    forall|i: int, j: int| 0 <= i < j < s.len() ==> s[i].0 != s[j].0
}

/// Whether every requested attribute is at least possibly compatible
/// with every requested language.
pub open spec fn spec_attrs_compatible(
    attrs: Seq<(Attribute, AttributeOptions)>,
    langs: Seq<LanguageCode>,
) -> bool {
    forall|i: int, j: int|
        0 <= i < attrs.len() && 0 <= j < langs.len() ==> spec_compatibility(
            attrs[i].0,
            langs[j],
        ) != AttributeCompatibility::Incompatible
}

impl Request {
    /// The requested attributes behave as a map: keys are unique.
    pub open spec fn wf(self) -> bool {
        attr_keys_unique(self.requested_attributes@)
    }
}

/// Builder for [`Request`].
#[derive(Clone, Debug)]
pub struct RequestBuilder {
    pub comment: Option<Comment>,
    pub context: Option<Option<Context>>,
    pub requested_attributes: Option<Vec<(Attribute, AttributeOptions)>>,
    pub span_annotations: Option<Option<bool>>,
    pub languages: Option<Option<Vec<LanguageCode>>>,
    pub do_not_store: Option<Option<bool>>,
    pub client_token: Option<Option<String>>,
    pub session_id: Option<Option<String>>,
    pub community_id: Option<Option<String>>,
}

/// The requested-attributes list of a builder, empty until set.
pub open spec fn spec_builder_attrs(b: RequestBuilder) -> Seq<(Attribute, AttributeOptions)> {
    match b.requested_attributes {
        Some(v) => v@,
        None => Seq::empty(),
    }
}

/// Whether the attributes and languages of a builder pass validation:
/// the attribute list, if set, is non-empty, and if languages were also
/// set, no requested attribute is incompatible with any of them.
pub open spec fn spec_request_ok(b: RequestBuilder) -> bool {
    match b.requested_attributes {
        Some(attrs) => attrs@.len() > 0 && match b.languages {
            Some(Some(langs)) => spec_attrs_compatible(attrs@, langs@),
            _ => true,
        },
        None => true,
    }
}

impl Default for RequestBuilder {
    fn default() -> (r: Self)
        ensures
            r.comment is None,
            r.context is None,
            r.requested_attributes is None,
            r.span_annotations is None,
            r.languages is None,
            r.do_not_store is None,
            r.client_token is None,
            r.session_id is None,
            r.community_id is None,
    {
        RequestBuilder {
            comment: None,
            context: None,
            requested_attributes: None,
            span_annotations: None,
            languages: None,
            do_not_store: None,
            client_token: None,
            session_id: None,
            community_id: None,
        }
    }
}

impl RequestBuilder {
    /// Keys of the attribute list, if set, are pairwise distinct.
    pub open spec fn wf(self) -> bool {
        attr_keys_unique(spec_builder_attrs(self))
    }

    pub fn comment(self, value: Comment) -> (r: Self)
        ensures
            r == (RequestBuilder { comment: Some(value), ..self }),
    {
        RequestBuilder { comment: Some(value), ..self }
    }

    pub fn context(self, value: Context) -> (r: Self)
        ensures
            r == (RequestBuilder { context: Some(Some(value)), ..self }),
    {
        RequestBuilder { context: Some(Some(value)), ..self }
    }

    /// Replaces the requested attributes wholesale; the list must have
    /// unique keys, as a map would.
    pub fn requested_attributes(self, value: Vec<(Attribute, AttributeOptions)>) -> (r: Self)
        requires
            attr_keys_unique(value@),
        ensures
            r == (RequestBuilder { requested_attributes: Some(value), ..self }),
            r.wf(),
    {
        RequestBuilder { requested_attributes: Some(value), ..self }
    }

    pub fn span_annotations(self, value: bool) -> (r: Self)
        ensures
            r == (RequestBuilder { span_annotations: Some(Some(value)), ..self }),
    {
        RequestBuilder { span_annotations: Some(Some(value)), ..self }
    }

    pub fn languages(self, value: Vec<LanguageCode>) -> (r: Self)
        ensures
            r == (RequestBuilder { languages: Some(Some(value)), ..self }),
    {
        RequestBuilder { languages: Some(Some(value)), ..self }
    }

    pub fn do_not_store(self, value: bool) -> (r: Self)
        ensures
            r == (RequestBuilder { do_not_store: Some(Some(value)), ..self }),
    {
        RequestBuilder { do_not_store: Some(Some(value)), ..self }
    }

    pub fn client_token(self, value: String) -> (r: Self)
        ensures
            r == (RequestBuilder { client_token: Some(Some(value)), ..self }),
    {
        RequestBuilder { client_token: Some(Some(value)), ..self }
    }

    pub fn session_id(self, value: String) -> (r: Self)
        ensures
            r == (RequestBuilder { session_id: Some(Some(value)), ..self }),
    {
        RequestBuilder { session_id: Some(Some(value)), ..self }
    }

    pub fn community_id(self, value: String) -> (r: Self)
        ensures
            r == (RequestBuilder { community_id: Some(Some(value)), ..self }),
    {
        RequestBuilder { community_id: Some(Some(value)), ..self }
    }

    /// Add one attribute to the request, replacing its options if the
    /// attribute is already requested, as a map insertion would.
    pub fn add_attribute(self, attribute: Attribute, options: AttributeOptions) -> (r: Self)
        requires
            self.wf(),
        ensures
            r.wf(),
            r.comment == self.comment,
            r.context == self.context,
            r.span_annotations == self.span_annotations,
            r.languages == self.languages,
            r.do_not_store == self.do_not_store,
            r.client_token == self.client_token,
            r.session_id == self.session_id,
            r.community_id == self.community_id,
            r.requested_attributes is Some,
            ({
                let olds = spec_builder_attrs(self);
                let news = spec_builder_attrs(r);
                if exists|i: int| 0 <= i < olds.len() && olds[i].0 == attribute {
                    &&& news.len() == olds.len()
                    &&& forall|i: int|
                        0 <= i < olds.len() ==> news[i] == if olds[i].0 == attribute {
                            (attribute, options)
                        } else {
                            olds[i]
                        }
                } else {
                    news == olds.push((attribute, options))
                }
            }),
    {
        let RequestBuilder {
            comment,
            context,
            requested_attributes,
            span_annotations,
            languages,
            do_not_store,
            client_token,
            session_id,
            community_id,
        } = self;
        let mut attrs: Vec<(Attribute, AttributeOptions)> = match requested_attributes {
            Some(v) => v,
            None => Vec::new(),
        };
        let ghost olds = attrs@;
        let mut i: usize = 0;
        let mut replaced = false;
        while i < attrs.len()
            invariant
                attrs@.len() == olds.len(),
                attr_keys_unique(olds),
                i <= attrs@.len(),
                !replaced ==> attrs@ == olds && forall|k: int|
                    0 <= k < i ==> olds[k].0 != attribute,
                replaced ==> (exists|k: int| 0 <= k < olds.len() && olds[k].0 == attribute)
                    && forall|k: int|
                    0 <= k < olds.len() ==> attrs@[k] == if olds[k].0 == attribute {
                        (attribute, options)
                    } else {
                        olds[k]
                    },
            decreases attrs@.len() - i,
        {
            if !replaced && attrs[i].0 == attribute {
                attrs[i] = (attribute, options);
                replaced = true;
            }
            i += 1;
        }
        if !replaced {
            attrs.push((attribute, options));
        }
        proof {
            assert(attr_keys_unique(attrs@));
        }
        RequestBuilder {
            comment,
            context,
            requested_attributes: Some(attrs),
            span_annotations,
            languages,
            do_not_store,
            client_token,
            session_id,
            community_id,
        }
    }

    /// Request every attribute the service knows, each with default
    /// options.
    pub fn all_attributes(self) -> (r: Self)
        ensures
            r.wf(),
            r.comment == self.comment,
            r.context == self.context,
            r.span_annotations == self.span_annotations,
            r.languages == self.languages,
            r.do_not_store == self.do_not_store,
            r.client_token == self.client_token,
            r.session_id == self.session_id,
            r.community_id == self.community_id,
            spec_builder_attrs(r) == crate::types::spec_all_attributes().map_values(
                |a: Attribute| (a, AttributeOptions { score_type: ScoreType::Probability }),
            ),
    {
        let all = Attribute::all();
        let mut attrs: Vec<(Attribute, AttributeOptions)> = Vec::new();
        let mut i: usize = 0;
        while i < all.len()
            invariant
                i <= all@.len(),
                all@ == crate::types::spec_all_attributes(),
                attrs@ == all@.subrange(0, i as int).map_values(
                    |a: Attribute| (a, AttributeOptions { score_type: ScoreType::Probability }),
                ),
            decreases all@.len() - i,
        {
            let a = all[i];
            attrs.push((a, AttributeOptions { score_type: ScoreType::Probability }));
            proof {
                assert(all@.subrange(0, i + 1 as int).map_values(
                    |a: Attribute| (a, AttributeOptions { score_type: ScoreType::Probability }),
                ) =~= all@.subrange(0, i as int).map_values(
                    |a: Attribute| (a, AttributeOptions { score_type: ScoreType::Probability }),
                ).push((all@[i as int], AttributeOptions { score_type: ScoreType::Probability })));
            }
            i += 1;
        }
        proof {
            assert(all@.subrange(0, all@.len() as int) =~= all@);
            assert(attr_keys_unique(attrs@));
        }
        RequestBuilder { requested_attributes: Some(attrs), ..self }
    }

    /// The attribute list, if set, must be non-empty and compatible with
    /// the requested languages, if any were set.
    #[verifier::loop_isolation(false)]
    pub fn validate(&self) -> (r: Result<(), String>)
        ensures
            r is Ok <==> spec_request_ok(*self),
            self.requested_attributes matches Some(v) && v@.len() == 0 ==> (r matches Err(m)
                && m@ == "requested attributes cannot be empty"@),
            r is Err && spec_builder_attrs(*self).len() > 0 ==> (r matches Err(m) && m@
                == "requested attributes are incompatible with the selected language(s)"@),
    {
        match &self.requested_attributes {
            Some(attrs) => {
                if attrs.len() == 0 {
                    return Err(String::from_str("requested attributes cannot be empty"));
                }
                match &self.languages {
                    Some(maybe_langs) => match maybe_langs {
                        Some(langs) => {
                            let mut i: usize = 0;
                            while i < attrs.len()
                                invariant
                                    i <= attrs@.len(),
                                    forall|k: int, j: int|
                                        0 <= k < i && 0 <= j < langs@.len()
                                            ==> spec_compatibility(attrs@[k].0, langs@[j])
                                            != AttributeCompatibility::Incompatible,
                                decreases attrs@.len() - i,
                            {
                                let mut j: usize = 0;
                                while j < langs.len()
                                    invariant
                                        i < attrs@.len(),
                                        j <= langs@.len(),
                                        forall|l: int|
                                            0 <= l < j ==> spec_compatibility(
                                                attrs@[i as int].0,
                                                langs@[l],
                                            ) != AttributeCompatibility::Incompatible,
                                    decreases langs@.len() - j,
                                {
                                    let c = attrs[i].0.check_compatibility(&langs[j]);
                                    if c == AttributeCompatibility::Incompatible {
                                        proof {
                                            assert(spec_compatibility(
                                                attrs@[i as int].0,
                                                langs@[j as int],
                                            ) == AttributeCompatibility::Incompatible);
                                            assert(!spec_attrs_compatible(attrs@, langs@));
                                        }
                                        return Err(
                                            String::from_str(
                                                "requested attributes are incompatible with the selected language(s)",
                                            ),
                                        );
                                    }
                                    j += 1;
                                }
                                i += 1;
                            }
                        },
                        None => {},
                    },
                    None => {},
                }
            },
            None => {},
        }
        Ok(())
    }

    /// Builds the request; fails when validation fails or a required
    /// field is missing.
    pub fn build(self) -> (r: Result<Request, String>)
        requires
            self.wf(),
        ensures
            r is Ok <==> spec_request_ok(self) && self.comment is Some
                && self.requested_attributes is Some,
            r matches Ok(req) ==> ({
                &&& req.wf()
                &&& self.comment matches Some(c) && req.comment == c
                &&& self.requested_attributes matches Some(v) && req.requested_attributes == v
                &&& req.context == or_none(self.context)
                &&& req.span_annotations == or_none(self.span_annotations)
                &&& req.languages == or_none(self.languages)
                &&& req.do_not_store == or_none(self.do_not_store)
                &&& req.client_token == or_none(self.client_token)
                &&& req.session_id == or_none(self.session_id)
                &&& req.community_id == or_none(self.community_id)
            }),
            spec_request_ok(self) && self.comment is None ==> (r matches Err(m) && m@
                == "comment must be initialized"@),
            spec_request_ok(self) && self.comment is Some && self.requested_attributes is None
                ==> (r matches Err(m) && m@ == "requested attributes must be initialized"@),
    {
        match self.validate() {
            Ok(_) => {},
            Err(m) => {
                return Err(m);
            },
        }
        let RequestBuilder {
            comment,
            context,
            requested_attributes,
            span_annotations,
            languages,
            do_not_store,
            client_token,
            session_id,
            community_id,
        } = self;
        let comment = match comment {
            Some(c) => c,
            None => {
                return Err(String::from_str("comment must be initialized"));
            },
        };
        let requested_attributes = match requested_attributes {
            Some(v) => v,
            None => {
                return Err(String::from_str("requested attributes must be initialized"));
            },
        };
        Ok(
            Request {
                comment,
                context: match context {
                    Some(v) => v,
                    None => None,
                },
                requested_attributes,
                span_annotations: match span_annotations {
                    Some(v) => v,
                    None => None,
                },
                languages: match languages {
                    Some(v) => v,
                    None => None,
                },
                do_not_store: match do_not_store {
                    Some(v) => v,
                    None => None,
                },
                client_token: match client_token {
                    Some(v) => v,
                    None => None,
                },
                session_id: match session_id {
                    Some(v) => v,
                    None => None,
                },
                community_id: match community_id {
                    Some(v) => v,
                    None => None,
                },
            },
        )
    }
}

} // verus!
