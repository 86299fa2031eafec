//! The script element: its activation state, the attributes and text that
//! activation reads, the orchestrator and the hooks that re-enter it.

use vstd::prelude::*;
use crate::classify::{classify, classify_spec};
use crate::resolve::{resolve, resolve_spec, url_joined, Action, ActionView, ActivationOutcome};

verus! {

/// Who created an element: the document parser, or a script.
#[derive(PartialEq, Eq, Structural, Clone, Copy, Debug)]
pub enum ElementCreator {
    ParserCreated,
    ScriptCreated,
}

/// The attributes of a script element that activation reads.
#[derive(PartialEq, Eq, Structural, Clone, Copy, Debug)]
pub enum ScriptAttr {
    Type,
    Language,
    Src,
    Async,
}

/// The mathematical model of a script element.
pub ghost struct ScriptModel {
    pub creator: ElementCreator,
    pub already_activated: bool,
    pub parser_inserted: bool,
    pub non_blocking: bool,
    pub declared_type: Option<Seq<char>>,
    pub declared_language: Option<Seq<char>>,
    pub src: Option<Seq<char>>,
    pub is_async: bool,
    pub text: Seq<char>,
    pub in_document: bool,
}

/// Only an element that the parser created can be parser-inserted.
pub open spec fn model_wf(m: ScriptModel) -> bool {
    m.parser_inserted ==> m.creator == ElementCreator::ParserCreated
}

pub open spec fn opt_view(o: Option<String>) -> Option<Seq<char>> {
    match o {
        Some(s) => Some(s@),
        None => None,
    }
}

/// Inline text, or a `src` attribute (even an empty one).
pub open spec fn has_content(m: ScriptModel) -> bool {
    m.text.len() > 0 || m.src is Some
}

/// Whether an activation attempt gets past every guard.
pub open spec fn passes_guards(m: ScriptModel) -> bool {
    &&& !m.already_activated
    &&& has_content(m)
    &&& m.in_document
    &&& classify_spec(m.declared_type, m.declared_language)
}

/// The element after one activation attempt. Past the guards it is marked
/// activated (before any fetch); a parser-inserted one stays so and blocks.
/// Stopped by a guard it is no longer parser-inserted, and one that was
/// becomes non-blocking if it carries `async`.
pub open spec fn prepared(m: ScriptModel) -> ScriptModel {
    if m.already_activated {
        m
    } else if passes_guards(m) {
        ScriptModel {
            already_activated: true,
            non_blocking: if m.parser_inserted { false } else { m.non_blocking },
            ..m
        }
    } else {
        ScriptModel {
            parser_inserted: false,
            non_blocking: if m.parser_inserted && m.is_async { true } else { m.non_blocking },
            ..m
        }
    }
}

/// What one activation attempt asks of the caller, guards in order.
pub open spec fn prepare_action(m: ScriptModel, base_url: Seq<char>) -> ActionView {
    if m.already_activated {
        ActionView::Stop(ActivationOutcome::AlreadyActivated)
    } else if !has_content(m) {
        ActionView::Stop(ActivationOutcome::NoContent)
    } else if !m.in_document {
        ActionView::Stop(ActivationOutcome::DetachedFromDocument)
    } else if !classify_spec(m.declared_type, m.declared_language) {
        ActionView::Stop(ActivationOutcome::NotExecutableType)
    } else {
        resolve_spec(m.src, m.text, base_url)
    }
}

/// `m` with one attribute set (`Some`) or removed (`None`).
pub open spec fn with_attr(m: ScriptModel, attr: ScriptAttr, value: Option<Seq<char>>) -> ScriptModel {
    match attr {
        ScriptAttr::Type => ScriptModel { declared_type: value, ..m },
        ScriptAttr::Language => ScriptModel { declared_language: value, ..m },
        ScriptAttr::Src => ScriptModel { src: value, ..m },
        ScriptAttr::Async => ScriptModel { is_async: value is Some, ..m },
    }
}

/// The result of a hook on the element `m`: when it fires, one activation
/// attempt; otherwise nothing happens.
pub open spec fn hook_ran(
    m: ScriptModel,
    fires: bool,
    base_url: Seq<char>,
    r: Option<Action>,
    after: ScriptModel,
) -> bool {
    if fires {
        &&& r is Some
        &&& r->Some_0@ == prepare_action(m, base_url)
        &&& after == prepared(m)
    } else {
        r is None && after == m
    }
}

/// Activation entry points of a script element.
pub trait HTMLScriptElementHelpers: Sized {
    spec fn model(&self) -> ScriptModel;

    /// Prepares the script: runs the guards, marks the element activated and
    /// resolves its source. A `Fetch` is completed by `finish_fetch`; an
    /// `Execute` is handed to the execution engine.
    fn prepare(&mut self, base_url: &str) -> (r: Action)
        ensures
            r@ == prepare_action(old(self).model(), base_url@),
            final(self).model() == prepared(old(self).model()),
    ;

    /// Whether the element's `type` and `language` name the scripting language.
    fn is_javascript(&self) -> (r: bool)
        ensures
            r == classify_spec(self.model().declared_type, self.model().declared_language),
    ;

    /// Sets the activated flag.
    fn mark_already_started(&mut self)
        ensures
            final(self).model() == (ScriptModel { already_activated: true, ..old(self).model() }),
    ;
}

/// A script element, with the attributes and text that activation reads.
pub struct HTMLScriptElement {
    creator: ElementCreator,
    already_started: bool,
    parser_inserted: bool,
    non_blocking: bool,
    type_attr: Option<String>,
    language_attr: Option<String>,
    src_attr: Option<String>,
    async_attr: bool,
    text: String,
    in_document: bool,
}

fn as_opt_str(o: &Option<String>) -> (r: Option<&str>)
    ensures
        match r {
            Some(s) => *o is Some && s@ == o->Some_0@,
            None => *o is None,
        },
{
    match o {
        Some(s) => Some(s.as_str()),
        None => None,
    }
}

impl HTMLScriptElementHelpers for HTMLScriptElement {
    closed spec fn model(&self) -> ScriptModel {
        ScriptModel {
            creator: self.creator,
            already_activated: self.already_started,
            parser_inserted: self.parser_inserted,
            non_blocking: self.non_blocking,
            declared_type: opt_view(self.type_attr),
            declared_language: opt_view(self.language_attr),
            src: opt_view(self.src_attr),
            is_async: self.async_attr,
            text: self.text@,
            in_document: self.in_document,
        }
    }

    fn prepare(&mut self, base_url: &str) -> (r: Action) {
        if self.already_started {
            return Action::Stop(ActivationOutcome::AlreadyActivated);
        }
        let was_parser_inserted = self.parser_inserted;
        self.parser_inserted = false;
        if was_parser_inserted && self.async_attr {
            self.non_blocking = true;
        }
        if self.text.as_str().unicode_len() == 0 && self.src_attr.is_none() {
            return Action::Stop(ActivationOutcome::NoContent);
        }
        if !self.in_document {
            return Action::Stop(ActivationOutcome::DetachedFromDocument);
        }
        if !self.is_javascript() {
            return Action::Stop(ActivationOutcome::NotExecutableType);
        }
        if was_parser_inserted {
            self.parser_inserted = true;
            self.non_blocking = false;
        }
        self.already_started = true;
        resolve(as_opt_str(&self.src_attr), self.text.as_str(), base_url)
    }

    fn is_javascript(&self) -> (r: bool) {
        classify(as_opt_str(&self.type_attr), as_opt_str(&self.language_attr))
    }

    fn mark_already_started(&mut self) {
        self.already_started = true;
    }
}

impl HTMLScriptElement {
    /// A new element, outside any document, with no attributes and no text.
    /// Only one that the parser creates starts with a flag set: parser-inserted.
    pub fn new(creator: ElementCreator) -> (r: HTMLScriptElement)
        ensures
            r.model() == (ScriptModel {
                creator,
                already_activated: false,
                parser_inserted: creator == ElementCreator::ParserCreated,
                non_blocking: false,
                declared_type: None,
                declared_language: None,
                src: None,
                is_async: false,
                text: Seq::empty(),
                in_document: false,
            }),
            model_wf(r.model()),
    {
        HTMLScriptElement {
            creator,
            already_started: false,
            parser_inserted: creator == ElementCreator::ParserCreated,
            non_blocking: false,
            type_attr: None,
            language_attr: None,
            src_attr: None,
            async_attr: false,
            text: String::new(),
            in_document: false,
        }
    }

    /// Records that an attribute was set (`Some`) or removed (`None`). A change
    /// of `src` on an element that is in a document and not parser-inserted
    /// triggers an activation attempt.
    pub fn after_set_attr(&mut self, attr: ScriptAttr, value: Option<String>, base_url: &str) -> (r: Option<Action>)
        ensures
            hook_ran(
                with_attr(old(self).model(), attr, opt_view(value)),
                attr == ScriptAttr::Src && !old(self).model().parser_inserted && old(self).model().in_document,
                base_url@,
                r,
                final(self).model(),
            ),
    {
        match attr {
            ScriptAttr::Type => self.type_attr = value,
            ScriptAttr::Language => self.language_attr = value,
            ScriptAttr::Src => self.src_attr = value,
            ScriptAttr::Async => self.async_attr = value.is_some(),
        }
        if attr == ScriptAttr::Src && !self.parser_inserted && self.in_document {
            Some(self.prepare(base_url))
        } else {
            None
        }
    }

    /// Records that a text child was inserted. On an element that is in a
    /// document and not parser-inserted this triggers an activation attempt.
    pub fn child_inserted(&mut self, child_text: &str, base_url: &str) -> (r: Option<Action>)
        ensures
            hook_ran(
                ScriptModel { text: old(self).model().text + child_text@, ..old(self).model() },
                !old(self).model().parser_inserted && old(self).model().in_document,
                base_url@,
                r,
                final(self).model(),
            ),
    {
        self.text.append(child_text);
        if !self.parser_inserted && self.in_document {
            Some(self.prepare(base_url))
        } else {
            None
        }
    }

    /// Records that the element was attached to a tree, which is or is not
    /// part of a document. Attached into a document, an element that is not
    /// parser-inserted gets an activation attempt.
    pub fn bind_to_tree(&mut self, tree_in_doc: bool, base_url: &str) -> (r: Option<Action>)
        ensures
            hook_ran(
                ScriptModel { in_document: tree_in_doc, ..old(self).model() },
                tree_in_doc && !old(self).model().parser_inserted,
                base_url@,
                r,
                final(self).model(),
            ),
    {
        self.in_document = tree_in_doc;
        if tree_in_doc && !self.parser_inserted {
            Some(self.prepare(base_url))
        } else {
            None
        }
    }

    /// Records that the element was detached from its document.
    pub fn unbind_from_tree(&mut self)
        ensures
            final(self).model() == (ScriptModel { in_document: false, ..old(self).model() }),
    {
        self.in_document = false;
    }

    /// The cloning steps: the copy of an activated element is activated too.
    pub fn cloning_steps(&self, copy: &mut HTMLScriptElement)
        ensures
            final(copy).model() == (ScriptModel {
                already_activated: old(copy).model().already_activated || self.model().already_activated,
                ..old(copy).model()
            }),
    {
        if self.already_started {
            copy.mark_already_started();
        }
    }

    /// A copy of the element as a script creates it: same attributes and
    /// text, outside any document, activated exactly when the original is.
    pub fn clone_node(&self) -> (r: HTMLScriptElement)
        ensures
            r.model() == (ScriptModel {
                creator: ElementCreator::ScriptCreated,
                already_activated: self.model().already_activated,
                parser_inserted: false,
                non_blocking: false,
                in_document: false,
                ..self.model()
            }),
            model_wf(r.model()),
    {
        let mut copy = HTMLScriptElement::new(ElementCreator::ScriptCreated);
        copy.type_attr = self.type_attr.clone();
        copy.language_attr = self.language_attr.clone();
        copy.src_attr = self.src_attr.clone();
        copy.async_attr = self.async_attr;
        copy.text = self.text.clone();
        self.cloning_steps(&mut copy);
        copy
    }

    /// The `src` attribute, if set.
    pub fn src(&self) -> (r: Option<&str>)
        ensures
            match r {
                Some(s) => self.model().src == Some(s@),
                None => self.model().src is None,
            },
    {
        as_opt_str(&self.src_attr)
    }

    /// The inline text.
    pub fn text(&self) -> (r: &str)
        ensures
            r@ == self.model().text,
    {
        self.text.as_str()
    }

    /// Replaces the inline text. Inserting a non-empty text child runs the
    /// child-inserted hook.
    pub fn set_text(&mut self, value: &str, base_url: &str) -> (r: Option<Action>)
        ensures
            hook_ran(
                ScriptModel { text: value@, ..old(self).model() },
                value@.len() > 0 && !old(self).model().parser_inserted && old(self).model().in_document,
                base_url@,
                r,
                final(self).model(),
            ),
    {
        self.text = String::new();
        assert(Seq::<char>::empty() + value@ =~= value@);
        if value.unicode_len() == 0 {
            None
        } else {
            self.child_inserted(value, base_url)
        }
    }

    pub fn is_activated(&self) -> (r: bool)
        ensures
            r == self.model().already_activated,
    {
        self.already_started
    }

    pub fn is_parser_inserted(&self) -> (r: bool)
        ensures
            r == self.model().parser_inserted,
    {
        self.parser_inserted
    }

    pub fn is_non_blocking(&self) -> (r: bool)
        ensures
            r == self.model().non_blocking,
    {
        self.non_blocking
    }

    pub fn is_in_document(&self) -> (r: bool)
        ensures
            r == self.model().in_document,
    {
        self.in_document
    }
}

/// Two activation attempts in a row run the payload at most once: after an
/// attempt that fetched or executed, the next one stops as `AlreadyActivated`
/// and leaves the element as it is.
pub proof fn lemma_prepare_at_most_once(m: ScriptModel, base_url: Seq<char>)
    ensures
        !(prepare_action(m, base_url) is Stop) ==> {
            &&& prepare_action(prepared(m), base_url) == ActionView::Stop(ActivationOutcome::AlreadyActivated)
            &&& prepared(prepared(m)) == prepared(m)
        },
{
}

/// An activation attempt keeps the element well formed and never clears the
/// activated flag; it sets the flag exactly when the guards pass.
pub proof fn lemma_prepare_keeps_invariants(m: ScriptModel)
    requires
        model_wf(m),
    ensures
        model_wf(prepared(m)),
        prepared(m).already_activated == (m.already_activated || passes_guards(m)),
{
}

/// A `src` attribute takes precedence over inline text: the inline text is
/// never executed, and past the guards a non-empty `src` is fetched.
pub proof fn lemma_src_takes_precedence(m: ScriptModel, base_url: Seq<char>)
    requires
        m.src is Some,
    ensures
        !(prepare_action(m, base_url) is Execute),
        passes_guards(m) && m.src->Some_0.len() > 0 ==> prepare_action(m, base_url) == match url_joined(base_url, m.src->Some_0) {
            Some(u) => ActionView::Fetch(u),
            None => ActionView::Stop(ActivationOutcome::FetchFailed),
        },
{
}

/// An empty `src` never leads to a fetch; past the guards it yields `NoContent`.
pub proof fn lemma_empty_src_never_fetches(m: ScriptModel, base_url: Seq<char>)
    requires
        m.src == Some(Seq::<char>::empty()),
    ensures
        prepare_action(m, base_url) is Stop,
        passes_guards(m) ==> prepare_action(m, base_url) == ActionView::Stop(ActivationOutcome::NoContent),
{
}

/// An element outside any document is never activated by an attempt,
/// whatever its text and type.
pub proof fn lemma_detached_never_activates(m: ScriptModel, base_url: Seq<char>)
    requires
        !m.in_document,
        !m.already_activated,
    ensures
        prepare_action(m, base_url) is Stop,
        !prepared(m).already_activated,
        !prepared(m).in_document,
{
}

} // verus!
