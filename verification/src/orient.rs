//! The Orient step: which messages the context needs.
//!
//! The context itself is compiled outside. Here the messages are selected whose text
//! has to be fetched, and what was fetched is put into order.

use vstd::prelude::*;

use crate::perceive::{last_messages, Conversation, ConversationMessage};
use crate::text::{opt_text, str_eq, utf8_text};
use crate::types::ArtifactId;

verus! {

/// How many messages of a conversation the context shows.
pub const SHOWN_MESSAGES: usize = 3;

/// The references of the messages, the newest first.
pub open spec fn refs_newest_first(messages: Seq<ConversationMessage>) -> Seq<Seq<char>>
    decreases messages.len(),
{
    if messages.len() == 0 {
        Seq::empty()
    } else {
        seq![messages.last().payload_ref.digest@] + refs_newest_first(messages.drop_last())
    }
}

/// The references of the shown messages of all conversations, in the order in which
/// they are looked at.
pub open spec fn all_refs(conversations: Seq<Conversation>) -> Seq<Seq<char>>
    decreases conversations.len(),
{
    if conversations.len() == 0 {
        Seq::empty()
    } else {
        all_refs(conversations.drop_last()) + refs_newest_first(
            last_messages(conversations.last().message_refs@, SHOWN_MESSAGES as int),
        )
    }
}

/// The references without those that occurred before.
pub open spec fn distinct_refs(refs: Seq<Seq<char>>) -> Seq<Seq<char>> {
    crate::compaction::distinct(refs)
}

/// The digests of a list of references.
pub open spec fn digests(list: Seq<ArtifactId>) -> Seq<Seq<char>> {
    Seq::new(list.len(), |i: int| list[i].digest@)
}

fn has_ref(list: &Vec<ArtifactId>, id: &ArtifactId) -> (r: bool)
    ensures
        r == digests(list@).contains(id.digest@),
{
    let mut i: usize = 0;
    while i < list.len()
        invariant
            i <= list@.len(),
            forall|k: int| 0 <= k < i ==> digests(list@)[k] != id.digest@,
        decreases list@.len() - i,
    {
        if str_eq(list[i].digest.as_str(), id.digest.as_str()) {
            assert(digests(list@)[i as int] == id.digest@);
            return true;
        }
        i = i + 1;
    }
    false
}

/// Lists the messages whose text the context needs: the last three of each
/// conversation, each only once.
pub fn messages_to_resolve(conversations: &Vec<Conversation>) -> (r: Vec<ArtifactId>)
    ensures
        digests(r@) == distinct_refs(all_refs(conversations@)),
{
    let mut out: Vec<ArtifactId> = Vec::new();
    let mut c: usize = 0;
    assert(digests(out@) =~= distinct_refs(all_refs(conversations@.subrange(0, 0))));
    while c < conversations.len()
        invariant
            c <= conversations@.len(),
            digests(out@) == distinct_refs(all_refs(conversations@.subrange(0, c as int))),
        decreases conversations@.len() - c,
    {
        let refs = &conversations[c].message_refs;
        let ghost base = all_refs(conversations@.subrange(0, c as int));
        let ghost shown = last_messages(refs@, SHOWN_MESSAGES as int);
        let ghost wanted = refs_newest_first(shown);
        let start: usize = if refs.len() <= SHOWN_MESSAGES {
            0
        } else {
            refs.len() - SHOWN_MESSAGES
        };
        let mut i: usize = refs.len();
        assert(shown =~= refs@.subrange(start as int, refs@.len() as int));
        proof {
            refs_len(shown);
            assert(base + wanted.subrange(0, 0) =~= base);
        }
        while i > start
            invariant
                start <= i <= refs@.len(),
                shown == refs@.subrange(start as int, refs@.len() as int),
                wanted == refs_newest_first(shown),
                wanted.len() == shown.len(),
                digests(out@) == distinct_refs(base + wanted.subrange(0, refs@.len() - i)),
            decreases i,
        {
            i = i - 1;
            let ghost k = refs@.len() - i - 1;
            proof {
                refs_index(shown, k);
                let now = base + wanted.subrange(0, k + 1);
                assert(now.drop_last() =~= base + wanted.subrange(0, k));
                assert(now.last() == refs@[i as int].payload_ref.digest@);
            }
            let ghost before = out@;
            if !has_ref(&out, &refs[i].payload_ref) {
                out.push(refs[i].payload_ref.clone());
                assert(digests(out@) =~= digests(before).push(
                    refs@[i as int].payload_ref.digest@,
                ));
            }
        }
        assert(wanted.subrange(0, wanted.len() as int) =~= wanted);
        assert(conversations@.subrange(0, c + 1).drop_last() =~= conversations@.subrange(
            0,
            c as int,
        ));
        c = c + 1;
    }
    assert(conversations@.subrange(0, conversations@.len() as int) =~= conversations@);
    out
}

proof fn refs_len(messages: Seq<ConversationMessage>)
    ensures
        refs_newest_first(messages).len() == messages.len(),
    decreases messages.len(),
{
    if messages.len() > 0 {
        refs_len(messages.drop_last());
    }
}

proof fn refs_index(messages: Seq<ConversationMessage>, k: int)
    requires
        0 <= k < messages.len(),
    ensures
        refs_newest_first(messages).len() == messages.len(),
        refs_newest_first(messages)[k] == messages[messages.len() - 1 - k].payload_ref.digest@,
    decreases messages.len(),
{
    refs_len(messages);
    if k > 0 {
        refs_index(messages.drop_last(), k - 1);
        assert(refs_newest_first(messages)[k] == refs_newest_first(messages.drop_last())[k - 1]);
    }
}

/// No message is fetched twice.
pub proof fn messages_are_fetched_once(refs: Seq<Seq<char>>)
    ensures
        distinct_refs(refs).no_duplicates(),
        forall|r: Seq<char>| refs.contains(r) <==> #[trigger] distinct_refs(refs).contains(r),
    decreases refs.len(),
{
    if refs.len() > 0 {
        let front = refs.drop_last();
        messages_are_fetched_once(front);
        let d = distinct_refs(front);
        let last = refs.last();
        assert forall|r: Seq<char>| refs.contains(r) <==> #[trigger] distinct_refs(
            refs,
        ).contains(r) by {
            if refs.contains(r) {
                let i = choose|i: int| 0 <= i < refs.len() && refs[i] == r;
                if i < front.len() {
                    assert(front[i] == r);
                    assert(d.contains(r));
                    let k = choose|k: int| 0 <= k < d.len() && d[k] == r;
                    assert(distinct_refs(refs)[k] == r);
                } else if !d.contains(last) {
                    assert(distinct_refs(refs)[d.len() as int] == r);
                }
            }
            if distinct_refs(refs).contains(r) {
                let k = choose|k: int|
                    0 <= k < distinct_refs(refs).len() && distinct_refs(refs)[k] == r;
                if k < d.len() {
                    assert(d[k] == r);
                    assert(d.contains(r));
                    assert(front.contains(r));
                    let i = choose|i: int| 0 <= i < front.len() && front[i] == r;
                    assert(refs[i] == r);
                } else {
                    assert(refs[refs.len() - 1] == r);
                }
            }
        }
    }
}

/// The text of fetched content. Content that was not found, or is no text, is left
/// out.
pub fn resolved_text(content: Option<Vec<u8>>) -> (r: Option<String>)
    ensures
        opt_text(r) == crate::exec_threads::content_text(content),
{
    match content {
        Some(bytes) => utf8_text(bytes),
        None => None,
    }
}

} // verus!
