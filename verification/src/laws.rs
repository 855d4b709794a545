//! Laws of the incoming queue, stated over the spec functions that the
//! queue operations' contracts use (`pushed`, `popped`).

use vstd::prelude::*;

use crate::paths::{dir_or_current, stem_or_empty};
use crate::state::{bounded_push, pushed, popped, setting_or, QueuedFileView};
use crate::upload::upload_name;

verus! {

/// The queue after each of `files` is added in turn at its back.
pub open spec fn enqueue_all(queue: Seq<QueuedFileView>, files: Seq<QueuedFileView>) -> Seq<
    QueuedFileView,
>
    decreases files.len(),
{
    if files.len() == 0 {
        queue
    } else {
        enqueue_all(pushed(queue, files[0]), files.drop_first())
    }
}

/// Takes from the front `n` times: the files taken, in order, and the queue left.
pub open spec fn drain(queue: Seq<QueuedFileView>, n: nat) -> (Seq<QueuedFileView>, Seq<
    QueuedFileView,
>)
    decreases n,
{
    if n == 0 {
        (Seq::empty(), queue)
    } else {
        match popped(queue).0 {
            None => (Seq::empty(), queue),
            Some(front) => {
                let rest = drain(popped(queue).1, (n - 1) as nat);
                (seq![front] + rest.0, rest.1)
            },
        }
    }
}

proof fn lemma_enqueue_all_appends(queue: Seq<QueuedFileView>, files: Seq<QueuedFileView>)
    ensures
        enqueue_all(queue, files) == queue + files,
    decreases files.len(),
{
    if files.len() > 0 {
        lemma_enqueue_all_appends(pushed(queue, files[0]), files.drop_first());
        assert(pushed(queue, files[0]) + files.drop_first() =~= queue + files);
    } else {
        assert(queue + files =~= queue);
    }
}

proof fn lemma_drain_takes_prefix(queue: Seq<QueuedFileView>, n: nat)
    requires
        n <= queue.len(),
    ensures
        drain(queue, n).0 == queue.take(n as int),
        drain(queue, n).1 == queue.skip(n as int),
    decreases n,
{
    if n == 0 {
        assert(queue.take(0) =~= Seq::<QueuedFileView>::empty());
        assert(queue.skip(0) =~= queue);
    } else {
        let rest = queue.drop_first();
        lemma_drain_takes_prefix(rest, (n - 1) as nat);
        assert(seq![queue[0]] + rest.take(n - 1) =~= queue.take(n as int));
        assert(rest.skip(n - 1) =~= queue.skip(n as int));
    }
}

/// First in, first out: files added one after another to a queue come out,
/// after the files already waiting, in the order they were added, and the
/// queue is then empty.
pub proof fn law_fifo_order(queue: Seq<QueuedFileView>, files: Seq<QueuedFileView>)
    ensures
        drain(enqueue_all(queue, files), queue.len() + files.len()).0 == queue + files,
        drain(enqueue_all(queue, files), queue.len() + files.len()).1 == Seq::<
            QueuedFileView,
        >::empty(),
{
    lemma_enqueue_all_appends(queue, files);
    let all = queue + files;
    lemma_drain_takes_prefix(all, all.len());
    assert(all.take(all.len() as int) =~= all);
    assert(all.skip(all.len() as int) =~= Seq::<QueuedFileView>::empty());
}

/// Taking from a queue gives back the oldest file: a file added to an empty
/// queue is the one taken next, and adding a file behind others does not
/// change which file is taken next.
pub proof fn law_take_gives_oldest(queue: Seq<QueuedFileView>, file: QueuedFileView)
    ensures
        queue.len() == 0 ==> popped(pushed(queue, file)) == (
        Some(file),
        Seq::<QueuedFileView>::empty(),
        ),
        queue.len() > 0 ==> popped(pushed(queue, file)).0 == popped(queue).0,
        queue.len() > 0 ==> popped(pushed(queue, file)).1 == pushed(popped(queue).1, file),
{
    if queue.len() == 0 {
        assert(pushed(queue, file).drop_first() =~= Seq::<QueuedFileView>::empty());
    } else {
        assert(pushed(queue, file).drop_first() =~= pushed(queue.drop_first(), file));
    }
}

/// Taking from an empty queue gives nothing and leaves it empty.
pub proof fn law_take_from_empty()
    ensures
        popped(Seq::<QueuedFileView>::empty()) == (
        None::<QueuedFileView>,
        Seq::<QueuedFileView>::empty(),
        ),
{
}

/// Depth counts adds minus takes: adding raises the depth by one, taking
/// from a non-empty queue lowers it by one.
pub proof fn law_depth_counts(queue: Seq<QueuedFileView>, file: QueuedFileView)
    ensures
        pushed(queue, file).len() == queue.len() + 1,
        queue.len() > 0 ==> popped(queue).1.len() == queue.len() - 1,
{
}

/// A queue filled only through bounded adds never holds more than its
/// limit: a bounded add keeps a queue within the limit within it.
pub proof fn law_bounded_add_keeps_limit(queue: Seq<QueuedFileView>, file: QueuedFileView, limit: nat)
    requires
        queue.len() <= limit,
    ensures
        bounded_push(queue, file, limit).len() <= limit,
        queue.len() < limit ==> bounded_push(queue, file, limit) == pushed(queue, file),
        queue.len() == limit ==> bounded_push(queue, file, limit) == queue,
{
}

/// What is received is what ChanNet fetches: a file queued into an empty
/// queue with room is the file the next take hands out, with the same id
/// and the same bytes, and the queue is empty again afterwards.
pub proof fn law_received_file_is_fetched(queued_id: u128, bytes: Seq<u8>, limit: nat)
    requires
        limit > 0,
    ensures
        popped(bounded_push(Seq::empty(), QueuedFileView { queued_id, bytes }, limit)) == (
        Some(QueuedFileView { queued_id, bytes }),
        Seq::<QueuedFileView>::empty(),
        ),
{
    let f = QueuedFileView { queued_id, bytes };
    assert(pushed(Seq::empty(), f).drop_first() =~= Seq::<QueuedFileView>::empty());
}

/// Received payloads come out once each, in arrival order: after two
/// files are received into an empty queue, the next take hands out the
/// first, the one after it the second, and a third take finds the queue
/// empty.
pub proof fn law_two_receives_three_takes(first: QueuedFileView, second: QueuedFileView)
    ensures
        ({
            let q1 = pushed(Seq::empty(), first);
            let q2 = pushed(q1, second);
            let t1 = popped(q2);
            let t2 = popped(t1.1);
            let t3 = popped(t2.1);
            &&& t1.0 == Some(first)
            &&& t2.0 == Some(second)
            &&& t3.0 == None::<QueuedFileView>
            &&& t3.1 == Seq::<QueuedFileView>::empty()
        }),
{
    let q2 = pushed(pushed(Seq::empty(), first), second);
    assert(q2.drop_first() =~= seq![second]);
    assert(q2.drop_first().drop_first() =~= Seq::<QueuedFileView>::empty());
}

/// An upload that gives a file name goes by exactly that name, of any
/// length; "upload" stands in only when no name was given.
pub proof fn law_upload_keeps_given_name(name: String)
    ensures
        upload_name(Some(name)) == name@,
        upload_name(None) == "upload"@,
{
}

/// The encoded WAV is named after the whole stem: the name starts with the
/// full stem, of any length, and goes on with exactly "_encoded.wav".
pub proof fn law_wav_name_keeps_whole_stem(stem: Seq<char>)
    ensures
        stem_or_empty(Some(stem)) == stem,
        (stem_or_empty(Some(stem)) + "_encoded.wav"@).subrange(0, stem.len() as int) == stem,
        (stem_or_empty(Some(stem)) + "_encoded.wav"@).len() == stem.len() + "_encoded.wav"@.len(),
        stem_or_empty(None) == Seq::<char>::empty(),
{
    let name = stem_or_empty(Some(stem)) + "_encoded.wav"@;
    assert(name.subrange(0, stem.len() as int) =~= stem);
}

/// A decoded file goes beside its input: whenever the input has a parent
/// directory, that directory is the one used; the current directory only
/// when it has none.
pub proof fn law_decoded_file_beside_input(parent: Seq<char>)
    ensures
        dir_or_current(Some(parent)) == parent,
        dir_or_current(None) == "."@,
{
}

/// A configured URL is used verbatim, whatever it holds; the default only
/// when the setting is unset.
pub proof fn law_configured_url_used_verbatim(setting: String, default: &str)
    ensures
        setting_or(Some(setting), default) == setting@,
        setting_or(None, default) == default@,
{
}

} // verus!
