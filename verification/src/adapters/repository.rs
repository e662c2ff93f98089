//! What is kept of conversations from one message to the next.
use vstd::prelude::*;

use crate::domain::{
    ConversationBinding, ConversationBindingView, ConversationKey, ConversationKeyView,
};
use crate::error::{outcome, BridgeError, BridgeErrorView};
use crate::paths::{parent_on, parent_path_on};
use crate::platform::System;
use crate::text::chars::{opt_text, same_text};

verus! {

/// The contexts of conversations, each under its text. No text occurs twice.
pub struct ConversationMap {
    entries: Vec<(String, ConversationBinding)>,
}

/// The contexts that some entries hold.
pub open spec fn entry_map(entries: Seq<(String, ConversationBinding)>) -> Map<
    Seq<char>,
    ConversationBindingView,
>
    decreases entries.len(),
{
    if entries.len() == 0 {
        Map::empty()
    } else {
        entry_map(entries.drop_last()).insert(entries.last().0@, entries.last().1@)
    }
}

/// No text occurs twice among the entries.
pub open spec fn distinct(entries: Seq<(String, ConversationBinding)>) -> bool {
    forall|i: int, j: int|
        0 <= i < j < entries.len() ==> (#[trigger] entries[i]).0@ != (#[trigger] entries[j]).0@
}

proof fn lemma_entry_map(entries: Seq<(String, ConversationBinding)>)
    requires
        distinct(entries),
    ensures
        forall|i: int|
            0 <= i < entries.len() ==> entry_map(entries).contains_key(
                (#[trigger] entries[i]).0@,
            ) && entry_map(entries)[entries[i].0@] == entries[i].1@,
        forall|text: Seq<char>| #[trigger]
            entry_map(entries).contains_key(text) ==> exists|i: int|
                0 <= i < entries.len() && (#[trigger] entries[i]).0@ == text,
    decreases entries.len(),
{
    if entries.len() > 0 {
        let front = entries.drop_last();
        let last = entries.len() - 1;
        assert forall|i: int, j: int| 0 <= i < j < front.len() implies (#[trigger] front[i]).0@ != (
        #[trigger] front[j]).0@ by {
            assert(entries[i].0@ != entries[j].0@);
        }
        lemma_entry_map(front);
        assert forall|i: int| 0 <= i < entries.len() implies entry_map(entries).contains_key(
            (#[trigger] entries[i]).0@,
        ) && entry_map(entries)[entries[i].0@] == entries[i].1@ by {
            if i < last {
                assert(front[i] == entries[i]);
                assert(entries[i].0@ != entries[last].0@);
            }
        }
        assert forall|text: Seq<char>| #[trigger]
            entry_map(entries).contains_key(text) implies exists|i: int|
            0 <= i < entries.len() && (#[trigger] entries[i]).0@ == text by {
            if text == entries[last].0@ {
            } else {
                assert(entry_map(front).contains_key(text));
                let i = choose|i: int| 0 <= i < front.len() && (#[trigger] front[i]).0@ == text;
                assert(entries[i].0@ == text);
            }
        }
    }
}

proof fn lemma_entry_map_update(
    entries: Seq<(String, ConversationBinding)>,
    at: int,
    entry: (String, ConversationBinding),
)
    requires
        distinct(entries),
        0 <= at < entries.len(),
        entries[at].0@ == entry.0@,
    ensures
        distinct(entries.update(at, entry)),
        entry_map(entries.update(at, entry)) == entry_map(entries).insert(entry.0@, entry.1@),
{
    let changed = entries.update(at, entry);
    assert forall|i: int, j: int| 0 <= i < j < changed.len() implies (#[trigger] changed[i]).0@ != (
    #[trigger] changed[j]).0@ by {
        assert(entries[i].0@ != entries[j].0@);
    }
    lemma_entry_map(entries);
    lemma_entry_map(changed);
    let left = entry_map(changed);
    let right = entry_map(entries).insert(entry.0@, entry.1@);
    assert forall|text: Seq<char>| #[trigger] left.contains_key(text) == right.contains_key(
        text,
    ) by {
        if left.contains_key(text) {
            let i = choose|i: int| 0 <= i < changed.len() && (#[trigger] changed[i]).0@ == text;
            assert(entries[i].0@ == text);
        }
        if entry_map(entries).contains_key(text) {
            let i = choose|i: int| 0 <= i < entries.len() && (#[trigger] entries[i]).0@ == text;
            assert(changed[i].0@ == text);
        }
        assert(changed[at].0@ == entry.0@);
    }
    assert forall|text: Seq<char>| #[trigger] left.contains_key(text) implies left[text]
        == right[text] by {
        let i = choose|i: int| 0 <= i < changed.len() && (#[trigger] changed[i]).0@ == text;
        if i != at {
            assert(entries[i] == changed[i]);
            if i < at {
                assert(entries[i].0@ != entries[at].0@);
            } else {
                assert(entries[at].0@ != entries[i].0@);
            }
        }
    }
    assert(left =~= right);
}

impl View for ConversationMap {
    type V = Map<Seq<char>, ConversationBindingView>;

    closed spec fn view(&self) -> Map<Seq<char>, ConversationBindingView> {
        entry_map(self.entries@)
    }
}

impl ConversationMap {
    #[verifier::type_invariant]
    spec fn no_text_twice(self) -> bool {
        distinct(self.entries@)
    }

    /// No context at all.
    pub fn new() -> (out: Self)
        ensures
            out@ == Map::<Seq<char>, ConversationBindingView>::empty(),
    {
        ConversationMap { entries: Vec::new() }
    }

    /// The contexts of some entries. Of two with the same text the later counts.
    pub fn from_entries(entries: Vec<(String, ConversationBinding)>) -> (out: Self)
        ensures
            out@ == entry_map(entries@),
    {
        let ghost all = entries@;
        let mut out = ConversationMap::new();
        for entry in it: entries.into_iter()
            invariant
                it.seq() == all,
                out@ == entry_map(all.take(it.index() as int)),
        {
            proof {
                let next = all.take(it.index() + 1);
                assert(next.drop_last() =~= all.take(it.index() as int));
                assert(next.last() == entry);
            }
            out = out.with(entry.0, entry.1);
        }
        assert(all.take(all.len() as int) =~= all);
        out
    }

    fn position(&self, text: &str) -> (out: Option<usize>)
        ensures
            match out {
                Some(at) => {
                    &&& at < self.entries@.len()
                    &&& self.entries@[at as int].0@ == text@
                    &&& self@.contains_key(text@)
                    &&& self@[text@] == self.entries@[at as int].1@
                },
                None => {
                    &&& !self@.contains_key(text@)
                    &&& forall|i: int|
                        0 <= i < self.entries@.len() ==> (#[trigger] self.entries@[i]).0@ != text@
                },
            },
    {
        proof {
            use_type_invariant(self);
            lemma_entry_map(self.entries@);
        }
        let mut i: usize = 0;
        while i < self.entries.len()
            invariant
                i <= self.entries@.len(),
                self@ == entry_map(self.entries@),
                forall|j: int| 0 <= j < i ==> (#[trigger] self.entries@[j]).0@ != text@,
                forall|j: int|
                    0 <= j < self.entries@.len() ==> entry_map(self.entries@).contains_key(
                        (#[trigger] self.entries@[j]).0@,
                    ) && entry_map(self.entries@)[self.entries@[j].0@] == self.entries@[j].1@,
            decreases self.entries@.len() - i,
        {
            if same_text(self.entries[i].0.as_str(), text) {
                assert(self.entries@[i as int].0@ == text@);
                return Some(i);
            }
            i += 1;
        }
        None
    }

    /// The context under a text.
    pub fn get(&self, text: &str) -> (out: Option<ConversationBinding>)
        ensures
            match out {
                Some(binding) => self@.contains_key(text@) && self@[text@] == binding@,
                None => !self@.contains_key(text@),
            },
    {
        match self.position(text) {
            Some(at) => Some(self.entries[at].1.clone()),
            None => None,
        }
    }

    /// The contexts, with the given one under the given text.
    pub fn with(self, text: String, binding: ConversationBinding) -> (out: Self)
        ensures
            out@ == self@.insert(text@, binding@),
    {
        proof {
            use_type_invariant(&self);
        }
        let found = self.position(text.as_str());
        let ghost before = self.entries@;
        let ghost entry = (text, binding);
        let mut entries = self.entries;
        match found {
            Some(at) => {
                proof {
                    lemma_entry_map_update(before, at as int, entry);
                }
                entries.set(at, (text, binding));
                ConversationMap { entries }
            },
            None => {
                entries.push((text, binding));
                assert(entries@.drop_last() =~= before);
                assert forall|i: int, j: int| 0 <= i < j < entries@.len() implies (
                #[trigger] entries@[i]).0@ != (#[trigger] entries@[j]).0@ by {
                    assert(entries@[i] == before[i]);
                    if j < before.len() {
                        assert(entries@[j] == before[j]);
                    }
                }
                ConversationMap { entries }
            },
        }
    }

    /// The entries, each text once.
    pub fn to_entries(&self) -> (out: Vec<(String, ConversationBinding)>)
        ensures
            distinct(out@),
            entry_map(out@) == self@,
    {
        proof {
            use_type_invariant(self);
        }
        let mut out: Vec<(String, ConversationBinding)> = Vec::new();
        let mut i: usize = 0;
        while i < self.entries.len()
            invariant
                i <= self.entries@.len(),
                out@ == self.entries@.take(i as int),
            decreases self.entries@.len() - i,
        {
            out.push((self.entries[i].0.clone(), self.entries[i].1.clone()));
            assert(out@ =~= self.entries@.take(i + 1));
            i += 1;
        }
        assert(self.entries@.take(i as int) =~= self.entries@);
        out
    }
}

impl Clone for ConversationMap {
    fn clone(&self) -> (out: Self)
        ensures
            out@ == self@,
    {
        let entries = self.to_entries();
        ConversationMap { entries }
    }
}

/// Contexts that are kept as long as the bridge runs.
pub struct InMemoryConversationRepository {
    pub entries: ConversationMap,
}

impl InMemoryConversationRepository {
    pub fn new() -> (out: Self)
        ensures
            out.entries@ == Map::<Seq<char>, ConversationBindingView>::empty(),
    {
        InMemoryConversationRepository { entries: ConversationMap::new() }
    }

    /// The context of a conversation, if one was put.
    pub fn get(&self, key: &ConversationKey) -> (out: Option<ConversationBinding>)
        ensures
            stored_as(out) == lookup(self.entries@, key@),
    {
        self.entries.get(key.storage_key().as_str())
    }

    /// Puts the context of a conversation.
    pub fn put(&mut self, key: &ConversationKey, binding: &ConversationBinding)
        ensures
            final(self).entries@ == old(self).entries@.insert(key@.storage_text(), binding@),
    {
        let mut entries = ConversationMap::new();
        std::mem::swap(&mut entries, &mut self.entries);
        self.entries = entries.with(key.storage_key(), binding.clone());
    }
}

impl Default for InMemoryConversationRepository {
    fn default() -> (out: Self)
        ensures
            out.entries@ == Map::<Seq<char>, ConversationBindingView>::empty(),
    {
        InMemoryConversationRepository::new()
    }
}

/// What is kept of a conversation.
pub open spec fn lookup(
    contexts: Map<Seq<char>, ConversationBindingView>,
    key: ConversationKeyView,
) -> Option<ConversationBindingView> {
    if contexts.contains_key(key.storage_text()) {
        Some(contexts[key.storage_text()])
    } else {
        None
    }
}

/// The view of a context that may be absent.
pub open spec fn stored_as(binding: Option<ConversationBinding>) -> Option<
    ConversationBindingView,
> {
    match binding {
        Some(binding) => Some(binding@),
        None => None,
    }
}

/// What was put for a conversation is what is found for it, and nothing changes
/// for conversations that are kept under another text.
pub proof fn law_what_was_put_is_found(
    contexts: Map<Seq<char>, ConversationBindingView>,
    key: ConversationKeyView,
    binding: ConversationBindingView,
    other: ConversationKeyView,
)
    ensures
        lookup(contexts.insert(key.storage_text(), binding), key) == Some(binding),
        other.storage_text() != key.storage_text() ==> lookup(
            contexts.insert(key.storage_text(), binding),
            other,
        ) == lookup(contexts, other),
{
}

/// What reading the file came to.
pub enum FileContent {
    /// There is no file.
    Absent,
    /// The file cannot be read, for the given reason.
    Unreadable(String),
    /// The file was read and is not what was written, for the given reason.
    Malformed(String),
    Entries(Vec<(String, ConversationBinding)>),
}

/// What writing the file came to.
pub enum FileWritten {
    Done,
    /// The directory that the file is in cannot be made, for the given reason.
    NoDirectory { directory: String, fault: String },
    /// The contexts cannot be turned into a text, for the given reason.
    NotSerialized(String),
    /// The file cannot be written, for the given reason.
    NotWritten(String),
}

/// Contexts that are kept in a file.
pub struct FileConversationRepository {
    pub path: String,
    pub cache: Option<ConversationMap>,
}

/// What is said of a file that cannot be used.
pub open spec fn file_failed(what: Seq<char>, path: Seq<char>, fault: Seq<char>) -> BridgeErrorView {
    BridgeErrorView::Persistence(what + path + ": "@ + fault)
}

fn file_error(what: &str, path: &str, fault: &str) -> (out: BridgeError)
    ensures
        out@ == file_failed(what@, path@, fault@),
{
    let mut message = what.to_owned();
    message.append(path);
    message.append(": ");
    message.append(fault);
    BridgeError::Persistence(message)
}

/// The contexts that a file holds; one that is absent holds none.
pub open spec fn loaded(path: Seq<char>, content: FileContent) -> Result<
    Map<Seq<char>, ConversationBindingView>,
    BridgeErrorView,
> {
    match content {
        FileContent::Absent => Ok(Map::empty()),
        FileContent::Unreadable(fault) => Err(file_failed("failed to read "@, path, fault@)),
        FileContent::Malformed(fault) => Err(file_failed("failed to parse "@, path, fault@)),
        FileContent::Entries(entries) => Ok(entry_map(entries@)),
    }
}

/// Why a file was not written.
pub open spec fn written(path: Seq<char>, result: FileWritten) -> Result<(), BridgeErrorView> {
    match result {
        FileWritten::Done => Ok(()),
        FileWritten::NoDirectory { directory, fault } => Err(
            file_failed("failed to create "@, directory@, fault@),
        ),
        FileWritten::NotSerialized(fault) => Err(
            BridgeErrorView::Persistence("failed to serialize state: "@ + fault@),
        ),
        FileWritten::NotWritten(fault) => Err(file_failed("failed to write "@, path, fault@)),
    }
}

impl FileConversationRepository {
    /// The contexts that are at hand, if the file was read or written.
    pub open spec fn contexts(self) -> Option<Map<Seq<char>, ConversationBindingView>> {
        match self.cache {
            Some(map) => Some(map@),
            None => None,
        }
    }

    pub fn new(path: String) -> (out: Self)
        ensures
            out.path == path,
            out.contexts() is None,
    {
        FileConversationRepository { path, cache: None }
    }

    /// The directory that the file is in, if its path tells.
    pub fn directory(&self, system: System) -> (out: Option<String>)
        ensures
            opt_text(out) == parent_path_on(system.family(), self.path@),
    {
        parent_on(system, self.path.as_str())
    }

    /// Whether the contexts are at hand.
    pub fn is_loaded(&self) -> (out: bool)
        ensures
            out == (self.contexts() is Some),
    {
        self.cache.is_some()
    }

    /// Takes the content of the file. Contexts at hand stay; where the file cannot
    /// be used there are none after it either.
    pub fn load_map(&mut self, content: FileContent) -> (out: Result<(), BridgeError>)
        ensures
            final(self).path == old(self).path,
            match old(self).contexts() {
                Some(contexts) => outcome(out) == Ok::<(), BridgeErrorView>(())
                    && final(self).contexts() == Some(contexts),
                None => match loaded(old(self).path@, content) {
                    Ok(contexts) => outcome(out) == Ok::<(), BridgeErrorView>(())
                        && final(self).contexts() == Some(contexts),
                    Err(error) => outcome(out) == Err::<(), BridgeErrorView>(error)
                        && final(self).contexts() is None,
                },
            },
    {
        if self.cache.is_some() {
            return Ok(());
        }
        let map = match content {
            FileContent::Absent => ConversationMap::new(),
            FileContent::Unreadable(fault) => {
                return Err(file_error("failed to read ", self.path.as_str(), fault.as_str()));
            },
            FileContent::Malformed(fault) => {
                return Err(file_error("failed to parse ", self.path.as_str(), fault.as_str()));
            },
            FileContent::Entries(entries) => ConversationMap::from_entries(entries),
        };
        self.cache = Some(map);
        Ok(())
    }

    /// The context of a conversation, if one is kept.
    pub fn get(&self, key: &ConversationKey) -> (out: Option<ConversationBinding>)
        requires
            self.contexts() is Some,
        ensures
            stored_as(out) == lookup(self.contexts()->Some_0, key@),
    {
        match &self.cache {
            Some(map) => map.get(key.storage_key().as_str()),
            None => None,
        }
    }

    /// The contexts that are to be written when that of a conversation is put.
    pub fn put(&self, key: &ConversationKey, binding: &ConversationBinding) -> (out:
        ConversationMap)
        requires
            self.contexts() is Some,
        ensures
            out@ == self.contexts()->Some_0.insert(key@.storage_text(), binding@),
    {
        match &self.cache {
            Some(map) => map.clone().with(key.storage_key(), binding.clone()),
            None => ConversationMap::new(),
        }
    }

    /// Takes what writing the contexts came to. They are the ones at hand if they
    /// were written; else those that were at hand stay.
    pub fn persist_map(&mut self, entries: ConversationMap, result: FileWritten) -> (out: Result<
        (),
        BridgeError,
    >)
        ensures
            final(self).path == old(self).path,
            outcome(out) == written(old(self).path@, result),
            final(self).contexts() == (if result is Done {
                Some(entries@)
            } else {
                old(self).contexts()
            }),
    {
        match result {
            FileWritten::Done => {
                self.cache = Some(entries);
                Ok(())
            },
            FileWritten::NoDirectory { directory, fault } => Err(
                file_error("failed to create ", directory.as_str(), fault.as_str()),
            ),
            FileWritten::NotSerialized(fault) => {
                let mut message = "failed to serialize state: ".to_owned();
                message.append(fault.as_str());
                Err(BridgeError::Persistence(message))
            },
            FileWritten::NotWritten(fault) => Err(
                file_error("failed to write ", self.path.as_str(), fault.as_str()),
            ),
        }
    }
}

/// What one bridge wrote is what another reads: entries that hold some contexts,
/// handed on as they are, give the same contexts.
pub proof fn law_what_was_written_is_read(
    path: Seq<char>,
    contexts: Map<Seq<char>, ConversationBindingView>,
    entries: Vec<(String, ConversationBinding)>,
)
    requires
        entry_map(entries@) == contexts,
    ensures
        loaded(path, FileContent::Entries(entries)) == Ok::<
            Map<Seq<char>, ConversationBindingView>,
            BridgeErrorView,
        >(contexts),
{
}

} // verus!
