//! Resolving how the backend is started on the platform at hand.
//!
//! A configuration is a JSON object with one entry per platform, each holding
//! a `command` and a list of `args`. Whatever is wrong with it, resolution
//! ends in a launch spec: an empty one where nothing usable was found.

use crate::document::{item_views, parse, parsed_text, Json, JsonView};
use crate::notice::{Notice, NoticeView};
use crate::platform::Platform;
use crate::texts::text_views;
use vstd::prelude::*;

verus! {

/// The command line that starts the backend. An empty command stands for
/// "nothing to start".
#[derive(Debug, PartialEq, Eq)]
pub struct BackendLaunchSpec {
    command: String,
    arguments: Vec<String>,
}

/// The mathematical content of a [`BackendLaunchSpec`].
pub struct LaunchSpecView {
    pub command: Seq<char>,
    pub arguments: Seq<Seq<char>>,
}

impl LaunchSpecView {
    /// The spec that starts nothing.
    pub open spec fn empty() -> LaunchSpecView {
        LaunchSpecView { command: Seq::empty(), arguments: Seq::empty() }
    }

    pub open spec fn has_command(self) -> bool {
        self.command.len() > 0
    }
}

impl View for BackendLaunchSpec {
    type V = LaunchSpecView;

    closed spec fn view(&self) -> LaunchSpecView {
        LaunchSpecView { command: self.command@, arguments: text_views(self.arguments@) }
    }
}

impl BackendLaunchSpec {
    pub fn new(command: String, arguments: Vec<String>) -> (spec: BackendLaunchSpec)
        ensures
            spec@ == (LaunchSpecView { command: command@, arguments: text_views(arguments@) }),
    {
        BackendLaunchSpec { command, arguments }
    }

    /// The spec that starts nothing.
    pub fn empty() -> (spec: BackendLaunchSpec)
        ensures
            spec@ == LaunchSpecView::empty(),
    {
        let spec = BackendLaunchSpec { command: String::new(), arguments: Vec::new() };
        assert(text_views(spec.arguments@) =~= Seq::<Seq<char>>::empty());
        spec
    }

    pub fn command(&self) -> (command: &str)
        ensures
            command@ == self@.command,
    {
        self.command.as_str()
    }

    pub fn arguments(&self) -> (arguments: &Vec<String>)
        ensures
            text_views(arguments@) == self@.arguments,
    {
        &self.arguments
    }

    /// Whether there is anything to start.
    pub fn has_command(&self) -> (b: bool)
        ensures
            b == self@.has_command(),
    {
        !self.command.as_str().is_empty()
    }

    /// Gives up the spec for its command and arguments.
    pub fn into_parts(self) -> (parts: (String, Vec<String>))
        ensures
            parts.0@ == self@.command,
            text_views(parts.1@) == self@.arguments,
    {
        (self.command, self.arguments)
    }
}

/// The texts among `items`, in their order; every other value is left out.
pub open spec fn texts_of(items: Seq<JsonView>) -> Seq<Seq<char>>
    decreases items.len(),
{
    if items.len() == 0 {
        Seq::empty()
    } else {
        match items.last() {
            JsonView::Text(s) => texts_of(items.drop_last()).push(s),
            _ => texts_of(items.drop_last()),
        }
    }
}

/// The arguments that a platform's entry lists: the texts of its `args`
/// array, and nothing where it has no such array.
pub open spec fn listed_arguments(entry: JsonView) -> Seq<Seq<char>> {
    match entry.member("args"@) {
        Some(JsonView::Array(items)) => texts_of(items),
        _ => Seq::empty(),
    }
}

/// The launch spec that a document holds for a platform.
///
/// An entry counts only if its `command` is a text. Without one the spec is
/// empty, whatever the entry lists as arguments.
pub open spec fn selected(doc: JsonView, platform: Platform) -> LaunchSpecView {
    match doc.member(platform.spec_key()) {
        Some(entry) => match entry.member("command"@) {
            Some(JsonView::Text(command)) => LaunchSpecView {
                command,
                arguments: listed_arguments(entry),
            },
            _ => LaunchSpecView::empty(),
        },
        None => LaunchSpecView::empty(),
    }
}

/// Collects the texts of an array, dropping every item that is not a text.
pub fn collect_texts(items: &Vec<Json>) -> (texts: Vec<String>)
    ensures
        text_views(texts@) == texts_of(item_views(items@)),
{
    let mut texts: Vec<String> = Vec::new();
    let mut i: usize = 0;
    while i < items.len()
        invariant
            i <= items.len(),
            text_views(texts@) == texts_of(item_views(items@).take(i as int)),
        decreases items.len() - i,
    {
        let ghost seen = item_views(items@).take(i as int);
        let ghost next = item_views(items@).take(i as int + 1);
        assert(next.drop_last() =~= seen);
        match items[i].as_text() {
            Some(s) => {
                texts.push(s.to_owned());
            },
            None => {},
        }
        i += 1;
    }
    assert(item_views(items@).take(items@.len() as int) =~= item_views(items@));
    texts
}

/// Reads from a parsed document the launch spec of one platform.
pub fn select_launch_spec(doc: &Json, platform: Platform) -> (spec: BackendLaunchSpec)
    ensures
        spec@ == selected(doc@, platform),
{
    let entry = match doc.member(platform.key()) {
        Some(entry) => entry,
        None => {
            return BackendLaunchSpec::empty();
        },
    };
    let command = match entry.member("command") {
        Some(value) => match value.as_text() {
            Some(text) => text.to_owned(),
            None => {
                return BackendLaunchSpec::empty();
            },
        },
        None => {
            return BackendLaunchSpec::empty();
        },
    };
    let arguments = match entry.member("args") {
        Some(value) => match value.as_items() {
            Some(items) => collect_texts(items),
            None => Vec::new(),
        },
        None => Vec::new(),
    };
    assert(text_views(arguments@) =~= listed_arguments(entry@));
    BackendLaunchSpec::new(command, arguments)
}

/// What came of reading the configuration resource.
#[derive(Debug, PartialEq, Eq)]
pub enum ConfigRead {
    /// The resource was read; this is its text.
    Loaded(String),
    /// The resource could not be read, for the reason given.
    Unreadable(String),
}

/// A resolved launch spec, with the notice that explains an empty one where
/// the configuration itself was at fault.
#[derive(Debug, PartialEq, Eq)]
pub struct Resolution {
    pub spec: BackendLaunchSpec,
    pub notice: Option<Notice>,
}

/// The launch spec that resolution yields.
pub open spec fn resolved_spec(read: ConfigRead, platform: Platform) -> LaunchSpecView {
    match read {
        ConfigRead::Loaded(text) => match parsed_text(text@) {
            Some(doc) => selected(doc, platform),
            None => LaunchSpecView::empty(),
        },
        ConfigRead::Unreadable(_) => LaunchSpecView::empty(),
    }
}

/// Whether `notice` is what resolution has to say about `read`: nothing of a
/// text that parses, that the configuration is malformed of one that does
/// not, and the given cause of a resource that could not be read.
pub open spec fn accounts_for(read: ConfigRead, notice: Option<NoticeView>) -> bool {
    match read {
        ConfigRead::Loaded(text) => match notice {
            Some(notice) => parsed_text(text@) is None && notice is ConfigMalformed,
            None => parsed_text(text@) is Some,
        },
        ConfigRead::Unreadable(cause) => notice == Some(
            NoticeView::ConfigUnreadable { cause: cause@ },
        ),
    }
}

/// The content of a notice that may be missing.
pub open spec fn optional_notice_view(notice: Option<Notice>) -> Option<NoticeView> {
    match notice {
        Some(notice) => Some(notice@),
        None => None,
    }
}

/// Resolves the launch spec for `platform` from what was read.
///
/// Never fails: an unreadable or malformed configuration resolves to the
/// empty spec, with a notice that says which of the two it was.
pub fn resolve(read: &ConfigRead, platform: Platform) -> (r: Resolution)
    ensures
        r.spec@ == resolved_spec(*read, platform),
        accounts_for(*read, optional_notice_view(r.notice)),
{
    match read {
        ConfigRead::Loaded(text) => match parse(text.as_str()) {
            Ok(doc) => Resolution { spec: select_launch_spec(&doc, platform), notice: None },
            Err(failure) => Resolution {
                spec: BackendLaunchSpec::empty(),
                notice: Some(Notice::ConfigMalformed { cause: failure.detail }),
            },
        },
        ConfigRead::Unreadable(cause) => Resolution {
            spec: BackendLaunchSpec::empty(),
            notice: Some(Notice::ConfigUnreadable { cause: cause.clone() }),
        },
    }
}

/// The array that holds exactly the texts of `texts`, in their order.
pub open spec fn text_items(texts: Seq<Seq<char>>) -> Seq<JsonView> {
    Seq::new(texts.len(), |i: int| JsonView::Text(texts[i]))
}

/// Of an array of texts nothing is dropped and nothing moves.
pub proof fn lemma_texts_of_text_items(texts: Seq<Seq<char>>)
    ensures
        texts_of(text_items(texts)) == texts,
    decreases texts.len(),
{
    if texts.len() > 0 {
        lemma_texts_of_text_items(texts.drop_last());
        assert(text_items(texts).drop_last() =~= text_items(texts.drop_last()));
    }
}

/// Dropping what is not a text keeps the texts in their order: the texts of
/// two arrays put end to end are the texts of the first and then those of
/// the second.
pub proof fn lemma_texts_of_concat(left: Seq<JsonView>, right: Seq<JsonView>)
    ensures
        texts_of(left + right) == texts_of(left) + texts_of(right),
    decreases right.len(),
{
    if right.len() == 0 {
        assert(left + right =~= left);
    } else {
        lemma_texts_of_concat(left, right.drop_last());
        assert((left + right).drop_last() =~= left + right.drop_last());
        match right.last() {
            JsonView::Text(s) => {
                assert((texts_of(left) + texts_of(right.drop_last())).push(s) =~= texts_of(left)
                    + texts_of(right.drop_last()).push(s));
            },
            _ => {},
        }
    }
}

/// A configuration whose entry for the platform holds a text as `command`
/// and an array of texts as `args` resolves to exactly that command and
/// those arguments, in their order.
pub proof fn lemma_resolve_well_formed(
    read: ConfigRead,
    platform: Platform,
    doc: JsonView,
    entry: JsonView,
    command: Seq<char>,
    arguments: Seq<Seq<char>>,
)
    requires
        read matches ConfigRead::Loaded(text) && parsed_text(text@) == Some(doc),
        doc.member(platform.spec_key()) == Some(entry),
        entry.member("command"@) == Some(JsonView::Text(command)),
        entry.member("args"@) == Some(JsonView::Array(text_items(arguments))),
    ensures
        selected(doc, platform) == (LaunchSpecView { command, arguments }),
        resolved_spec(read, platform) == (LaunchSpecView { command, arguments }),
{
    lemma_texts_of_text_items(arguments);
}

/// Whether the document holds, in its entry for the platform, a text as
/// `command`.
pub open spec fn configures_command(doc: JsonView, platform: Platform) -> bool {
    doc.member(platform.spec_key()) matches Some(entry) && entry.member("command"@) matches Some(
        JsonView::Text(_),
    )
}

/// A configuration without an entry for the platform, or whose entry is
/// without a text as `command`, resolves to the empty spec: no command and
/// no arguments.
pub proof fn lemma_resolve_missing(read: ConfigRead, platform: Platform, doc: JsonView)
    requires
        read matches ConfigRead::Loaded(text) && parsed_text(text@) == Some(doc),
        !configures_command(doc, platform),
    ensures
        selected(doc, platform) == LaunchSpecView::empty(),
        resolved_spec(read, platform) == LaunchSpecView::empty(),
{
}

/// A configuration that does not parse, and one that could not be read,
/// resolve to the same empty spec as one without an entry.
pub proof fn lemma_resolve_unusable(read: ConfigRead, platform: Platform)
    requires
        match read {
            ConfigRead::Loaded(text) => parsed_text(text@) is None,
            ConfigRead::Unreadable(_) => true,
        },
    ensures
        resolved_spec(read, platform) == LaunchSpecView::empty(),
{
}

} // verus!
