//! What holds of everything that is kept of conversations.
use vstd::prelude::*;

use crate::adapters::repository::{
    entry_map, loaded, written, ConversationMap, FileContent, FileConversationRepository,
    FileWritten, InMemoryConversationRepository,
};
use crate::domain::{
    colon_free, law_storage_text_tells_conversations_apart, ConversationBinding,
    ConversationBindingView, ConversationKey,
};
use crate::error::{BridgeError, BridgeErrorView};
use crate::text::chars::opt_text;

verus! {

/// Two contexts agree in their directory, their agent, their session and their permissions.
pub open spec fn same_context(left: ConversationBinding, right: ConversationBinding) -> bool {
    &&& left.cwd@ == right.cwd@
    &&& left.agent@ == right.agent@
    &&& opt_text(left.session_name) == opt_text(right.session_name)
    &&& left.permission_mode == right.permission_mode
}

/// What was found is the given context.
pub open spec fn is_found(found: Option<ConversationBinding>, binding: ConversationBinding) -> bool {
    found matches Some(context) && same_context(context, binding)
}

/// What was put under a text is found under it, and what is found under any other text is
/// what was found there before.
pub proof fn law_a_context_is_found_where_it_was_put(
    map: ConversationMap,
    text: String,
    binding: ConversationBinding,
    after: ConversationMap,
    same: &str,
    found: Option<ConversationBinding>,
    other: &str,
    there: Option<ConversationBinding>,
    before: Option<ConversationBinding>,
)
    requires
        call_ensures(ConversationMap::with, (map, text, binding), after),
        same@ == text@,
        other@ != text@,
        call_ensures(ConversationMap::get, (&after, same), found),
        call_ensures(ConversationMap::get, (&after, other), there),
        call_ensures(ConversationMap::get, (&map, other), before),
    ensures
        is_found(found, binding),
        there is Some <==> before is Some,
        before matches Some(context) ==> is_found(there, context),
{
}

/// Nothing is found in contexts to which nothing was put.
pub proof fn law_nothing_is_found_where_nothing_was_put(
    map: ConversationMap,
    text: &str,
    found: Option<ConversationBinding>,
)
    requires
        call_ensures(ConversationMap::new, (), map),
        call_ensures(ConversationMap::get, (&map, text), found),
    ensures
        found is None,
{
}

proof fn lemma_last_counts(
    entries: Seq<(String, ConversationBinding)>,
    text: Seq<char>,
    at: int,
)
    requires
        -1 <= at < entries.len(),
        at >= 0 ==> entries[at].0@ == text,
        forall|i: int| at < i < entries.len() ==> (#[trigger] entries[i]).0@ != text,
    ensures
        entry_map(entries).contains_key(text) <==> at >= 0,
        at >= 0 ==> entry_map(entries)[text] == entries[at].1@,
    decreases entries.len(),
{
    if entries.len() > 0 && at < entries.len() - 1 {
        let front = entries.drop_last();
        assert(entries[entries.len() - 1].0@ != text);
        assert forall|i: int| at < i < front.len() implies (#[trigger] front[i]).0@ != text by {
            assert(front[i] == entries[i]);
        }
        lemma_last_counts(front, text, at);
    }
}

/// Of the entries of a file every one is taken, however many there are: under each text the
/// last entry with that text is found, and under a text that no entry has nothing is.
pub proof fn law_every_entry_is_found(
    entries: Vec<(String, ConversationBinding)>,
    map: ConversationMap,
    text: &str,
    at: int,
    found: Option<ConversationBinding>,
)
    requires
        call_ensures(ConversationMap::from_entries, (entries,), map),
        call_ensures(ConversationMap::get, (&map, text), found),
        -1 <= at < entries@.len(),
        at >= 0 ==> entries@[at].0@ == text@,
        forall|i: int| at < i < entries@.len() ==> (#[trigger] entries@[i]).0@ != text@,
    ensures
        at >= 0 ==> is_found(found, entries@[at].1),
        at < 0 ==> found is None,
{
    lemma_last_counts(entries@, text@, at);
}

/// What is written down of some contexts and read again gives the same contexts, for every
/// text.
pub proof fn law_contexts_survive_being_written_down(
    map: ConversationMap,
    entries: Vec<(String, ConversationBinding)>,
    again: ConversationMap,
    text: &str,
    before: Option<ConversationBinding>,
    after: Option<ConversationBinding>,
)
    requires
        call_ensures(ConversationMap::to_entries, (&map,), entries),
        call_ensures(ConversationMap::from_entries, (entries,), again),
        call_ensures(ConversationMap::get, (&map, text), before),
        call_ensures(ConversationMap::get, (&again, text), after),
    ensures
        before is Some <==> after is Some,
        before matches Some(context) ==> is_found(after, context),
{
}

/// The context that is put for a conversation is found for it once it is written, and for a
/// conversation with another tenant, chat, user or thread what was found before.
pub proof fn law_conversations_have_contexts_of_their_own(
    repository: FileConversationRepository,
    key: ConversationKey,
    binding: ConversationBinding,
    map: ConversationMap,
    after: FileConversationRepository,
    found: Option<ConversationBinding>,
    other: ConversationKey,
    there: Option<ConversationBinding>,
    before: Option<ConversationBinding>,
)
    requires
        repository.cache is Some,
        call_ensures(FileConversationRepository::put, (&repository, &key, &binding), map),
        after.cache == Some(map),
        call_ensures(FileConversationRepository::get, (&after, &key), found),
        call_ensures(FileConversationRepository::get, (&after, &other), there),
        call_ensures(FileConversationRepository::get, (&repository, &other), before),
        colon_free(key.tenant_key@) && colon_free(other.tenant_key@),
        colon_free(key.chat_id@) && colon_free(other.chat_id@),
        colon_free(key.user_open_id@) && colon_free(other.user_open_id@),
        opt_text(key.thread_id) != Some("-"@),
        opt_text(other.thread_id) != Some("-"@),
        key.tenant_key@ != other.tenant_key@ || key.chat_id@ != other.chat_id@
            || key.user_open_id@ != other.user_open_id@ || opt_text(key.thread_id) != opt_text(
            other.thread_id,
        ),
    ensures
        is_found(found, binding),
        there is Some <==> before is Some,
        before matches Some(context) ==> is_found(there, context),
{
    law_storage_text_tells_conversations_apart(key@, other@);
}

/// A file that is absent holds nothing. One that cannot be read or is not what was written,
/// and one that is not written, is told of by its path and the reason.
pub proof fn law_trouble_with_the_file_is_told_of(path: Seq<char>, fault: String, dir: String)
    ensures
        loaded(path, FileContent::Absent) == Ok::<
            Map<Seq<char>, ConversationBindingView>,
            BridgeErrorView,
        >(Map::empty()),
        loaded(path, FileContent::Unreadable(fault)) == Err::<
            Map<Seq<char>, ConversationBindingView>,
            BridgeErrorView,
        >(BridgeErrorView::Persistence("failed to read "@ + path + ": "@ + fault@)),
        loaded(path, FileContent::Malformed(fault)) == Err::<
            Map<Seq<char>, ConversationBindingView>,
            BridgeErrorView,
        >(BridgeErrorView::Persistence("failed to parse "@ + path + ": "@ + fault@)),
        written(path, FileWritten::Done) == Ok::<(), BridgeErrorView>(()),
        written(path, FileWritten::NoDirectory { directory: dir, fault }) == Err::<
            (),
            BridgeErrorView,
        >(BridgeErrorView::Persistence("failed to create "@ + dir@ + ": "@ + fault@)),
        written(path, FileWritten::NotSerialized(fault)) == Err::<(), BridgeErrorView>(
            BridgeErrorView::Persistence("failed to serialize state: "@ + fault@),
        ),
        written(path, FileWritten::NotWritten(fault)) == Err::<(), BridgeErrorView>(
            BridgeErrorView::Persistence("failed to write "@ + path + ": "@ + fault@),
        ),
{
}

/// Contexts that are kept in memory: what is put for a conversation is found for it, and
/// for a conversation that is kept under another text what was found before.
pub proof fn law_memory_keeps_what_was_put(
    repository: &mut InMemoryConversationRepository,
    key: ConversationKey,
    binding: ConversationBinding,
    found: Option<ConversationBinding>,
    other: ConversationKey,
    there: Option<ConversationBinding>,
    before: Option<ConversationBinding>,
)
    requires
        call_ensures(InMemoryConversationRepository::put, (repository, &key, &binding), ()),
        call_ensures(InMemoryConversationRepository::get, (&*final(repository), &key), found),
        call_ensures(InMemoryConversationRepository::get, (&*final(repository), &other), there),
        call_ensures(InMemoryConversationRepository::get, (&*old(repository), &other), before),
        other@.storage_text() != key@.storage_text(),
    ensures
        is_found(found, binding),
        there is Some <==> before is Some,
        before matches Some(context) ==> is_found(there, context),
{
}

/// Once the file was read, each of its entries is found for its conversation, the last one
/// of those with the same text.
pub proof fn law_a_file_that_was_read_is_at_hand(
    repository: &mut FileConversationRepository,
    entries: Vec<(String, ConversationBinding)>,
    out: Result<(), BridgeError>,
    key: ConversationKey,
    at: int,
    found: Option<ConversationBinding>,
)
    requires
        old(repository).cache is None,
        call_ensures(
            FileConversationRepository::load_map,
            (repository, FileContent::Entries(entries)),
            out,
        ),
        -1 <= at < entries@.len(),
        at >= 0 ==> entries@[at].0@ == key@.storage_text(),
        forall|i: int|
            at < i < entries@.len() ==> (#[trigger] entries@[i]).0@ != key@.storage_text(),
        call_ensures(FileConversationRepository::get, (&*final(repository), &key), found),
    ensures
        out is Ok,
        final(repository).path@ == old(repository).path@,
        at >= 0 ==> is_found(found, entries@[at].1),
        at < 0 ==> found is None,
{
    lemma_last_counts(entries@, key@.storage_text(), at);
}

/// Contexts that were written are at hand, and those that were not written are not: what
/// was found before is still found then, and the caller learns why.
pub proof fn law_what_was_not_written_is_not_at_hand(
    repository: &mut FileConversationRepository,
    map: ConversationMap,
    result: FileWritten,
    out: Result<(), BridgeError>,
)
    requires
        call_ensures(FileConversationRepository::persist_map, (repository, map, result), out),
    ensures
        result is Done <==> out is Ok,
        result is Done ==> final(repository).contexts() == Some(map@),
        !(result is Done) ==> final(repository).contexts() == old(repository).contexts(),
        final(repository).path@ == old(repository).path@,
        out matches Err(error) ==> error is Persistence,
{
}

/// Contexts that are at hand stay when the file is read again, whatever it holds. A file that
/// cannot be used leaves none at hand where there were none, and the caller learns why.
pub proof fn law_contexts_at_hand_stay(
    repository: &mut FileConversationRepository,
    content: FileContent,
    out: Result<(), BridgeError>,
)
    requires
        call_ensures(FileConversationRepository::load_map, (repository, content), out),
    ensures
        old(repository).cache is Some ==> out is Ok,
        old(repository).cache is Some ==> final(repository).contexts()
            == old(repository).contexts(),
        old(repository).cache is None && (content is Unreadable || content is Malformed) ==> out
            is Err && final(repository).cache is None,
        old(repository).cache is None && content is Absent ==> out is Ok,
        old(repository).cache is None && content is Absent ==> final(repository).contexts() == Some(
            Map::<Seq<char>, ConversationBindingView>::empty(),
        ),
{
}

} // verus!
