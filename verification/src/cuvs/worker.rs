//! The worker that owns a GPU index: what it does with each request, and when
//! the timer asks it to build.

use crate::cuvs::index::{CuvsIndex, IndexView, RowsView};
use crate::types::{Dimensions, IndexKey, PrimaryId};
use vstd::prelude::*;

verus! {

/// A question to the index. `A` and `C` are the handles through which a search
/// and a count are answered.
#[allow(inconsistent_fields)]
#[derive(Debug)]
pub enum VsIndexSearch<A, C> {
    Ann { tx: A },
    FilteredAnn { tx: A },
    Count { index_key: IndexKey, tx: C },
}

/// A write to the index. `P` is the token that is dropped once the write is in
/// the index.
#[derive(Debug)]
pub enum VsIndexModify<T, P> {
    AddVector { primary_id: PrimaryId, embedding: Vec<T>, in_progress: P },
    RemoveVector { primary_id: PrimaryId, in_progress: P },
    RemovePartition,
}

/// What clients send to the index.
#[derive(Debug)]
pub enum Message<T, P, A, C> {
    Search(VsIndexSearch<A, C>),
    Modify(VsIndexModify<T, P>),
}

/// What the worker takes from its queue.
#[derive(Debug)]
pub enum Request<T, P, A, C> {
    Message(Message<T, P, A, C>),
    Flush,
}

/// Why a question was not answered.
#[derive(Debug)]
pub enum RequestError {
    /// There is no index, for the reason given.
    Unavailable { reason: String },
    /// The table does not know the index.
    IndexIdNotFound { index_key: IndexKey },
    /// The index cannot be searched.
    SearchNotImplemented,
}

impl RequestError {
    /// The message for this error.
    pub open spec fn message(self) -> Seq<char> {
        match self {
            RequestError::Unavailable { reason } => "cuVS index is unavailable: "@ + reason@,
            RequestError::IndexIdNotFound { index_key } => "index id not found for index key "@
                + index_key.text(),
            RequestError::SearchNotImplemented => "cuVS index search is not implemented yet"@,
        }
    }

    /// Puts the error into words.
    pub fn to_string(&self) -> (text: String)
        ensures
            text@ == self.message(),
            match self {
                RequestError::Unavailable { reason } => text@ == "cuVS index is unavailable: "@
                    + reason@,
                RequestError::IndexIdNotFound { index_key } => text@
                    == "index id not found for index key "@ + index_key.text(),
                RequestError::SearchNotImplemented => text@
                    == "cuVS index search is not implemented yet"@,
            },
    {
        match self {
            RequestError::Unavailable { reason } => {
                let mut text = "cuVS index is unavailable: ".to_string();
                text.append(reason.as_str());
                text
            },
            RequestError::IndexIdNotFound { index_key } => {
                let mut text = "index id not found for index key ".to_string();
                text.append(index_key.as_str());
                text
            },
            RequestError::SearchNotImplemented => {
                "cuVS index search is not implemented yet".to_string()
            },
        }
    }
}

/// An answer, and the handle to send it through.
#[allow(inconsistent_fields)]
#[derive(Debug)]
pub enum Reply<A, C> {
    Ann { tx: A, error: RequestError },
    Count { tx: C, result: Result<usize, RequestError> },
}

impl<A, C> Reply<A, C> {
    /// Whether the answer goes to the one who asked `search`.
    pub open spec fn answers(self, search: VsIndexSearch<A, C>) -> bool {
        match search {
            VsIndexSearch::Ann { tx } => self matches Reply::Ann { tx: to, .. } && to == tx,
            VsIndexSearch::FilteredAnn { tx } => self matches Reply::Ann { tx: to, .. } && to == tx,
            VsIndexSearch::Count { tx, .. } => self matches Reply::Count { tx: to, .. } && to == tx,
        }
    }

    /// The error that the answer carries, if it carries one.
    pub open spec fn error(self) -> Option<RequestError> {
        match self {
            Reply::Ann { error, .. } => Some(error),
            Reply::Count { result, .. } => match result {
                Ok(_) => None,
                Err(error) => Some(error),
            },
        }
    }
}

/// Turns a message down: a question is answered with `err`, a write is dropped.
pub fn reject<T, P, A, C>(msg: Message<T, P, A, C>, err: RequestError) -> (reply: Option<
    Reply<A, C>,
>)
    ensures
        match msg {
            Message::Search(search) => {
                &&& reply is Some
                &&& reply->0.answers(search)
                &&& reply->0.error() == Some(err)
            },
            Message::Modify(_) => reply is None,
        },
        reply == match msg {
            Message::Search(VsIndexSearch::Ann { tx }) => Some(
                Reply::<A, C>::Ann { tx, error: err },
            ),
            Message::Search(VsIndexSearch::FilteredAnn { tx }) => Some(
                Reply::<A, C>::Ann { tx, error: err },
            ),
            Message::Search(VsIndexSearch::Count { tx, .. }) => Some(
                Reply::<A, C>::Count { tx, result: Err(err) },
            ),
            Message::Modify(_) => None,
        },
{
    match msg {
        Message::Search(VsIndexSearch::Ann { tx }) => Some(Reply::Ann { tx, error: err }),
        Message::Search(VsIndexSearch::FilteredAnn { tx }) => Some(Reply::Ann { tx, error: err }),
        Message::Search(VsIndexSearch::Count { tx, .. }) => Some(
            Reply::Count { tx, result: Err(err) },
        ),
        Message::Modify(_) => None,
    }
}

/// The rows that a build is to take in.
#[derive(Clone, Copy, Debug, PartialEq, Eq, Structural)]
pub struct BuildJob {
    pub rows: usize,
    pub columns: usize,
}

/// What is left to do once a request has been taken in.
#[derive(Debug)]
pub enum Effect<A, C> {
    /// Nothing.
    Done,
    /// Nothing; the request asked for something that is not supported.
    NotImplemented,
    /// Send an answer.
    Reply(Reply<A, C>),
    /// Build over the current rows, report how that ended, and only then let
    /// the next flush be queued.
    Build(BuildJob),
    /// There was nothing to build; let the next flush be queued.
    Flushed,
}

impl<T, P, A, C> Request<T, P, A, C> {
    /// Whether an index with these rows can take the request in.
    pub open spec fn fits(self, rows: RowsView<T>) -> bool {
        match self {
            Request::Message(Message::Modify(VsIndexModify::AddVector { primary_id, embedding, .. })) =>
                rows.accepts(primary_id, embedding@.len()),
            Request::Message(Message::Modify(VsIndexModify::RemoveVector { .. })) => rows.aligned(),
            _ => true,
        }
    }

    /// The index that the request asks to count, if it asks for a count.
    pub open spec fn counted(self) -> Option<IndexKey> {
        match self {
            Request::Message(Message::Search(VsIndexSearch::Count { index_key, .. })) => Some(
                index_key,
            ),
            _ => None,
        }
    }

    /// The index that the table is to be asked about before the request is
    /// taken in: the one that a count names, and none for any other request.
    pub fn asks_about(&self) -> (index_key: Option<&IndexKey>)
        ensures
            index_key is Some <==> self.counted() is Some,
            index_key matches Some(key) ==> self.counted() == Some(*key),
            index_key is Some <==> *self matches Request::Message(
                Message::Search(VsIndexSearch::Count { .. }),
            ),
            *self matches Request::Message(
                Message::Search(VsIndexSearch::Count { index_key: asked, .. }),
            ) ==> index_key == Some(&asked),
    {
        match self {
            Request::Message(Message::Search(VsIndexSearch::Count { index_key, .. })) => Some(
                index_key,
            ),
            _ => None,
        }
    }

    /// What answering the request with `effect` means for the flushes on their
    /// way. A flush that is built, or that has nothing to build, is served; any
    /// other answer to a flush ignores it.
    pub open spec fn flush_event(self, effect: Effect<A, C>) -> Option<FlushEvent> {
        if effect is Build || effect is Flushed {
            Some(FlushEvent::Served)
        } else if self is Flush {
            Some(FlushEvent::Ignored)
        } else {
            None
        }
    }

    /// The index after the request was taken in.
    pub open spec fn applied_to(self, index: IndexView<T, P>) -> IndexView<T, P> {
        match self {
            Request::Message(Message::Modify(VsIndexModify::AddVector {
                primary_id,
                embedding,
                in_progress,
            })) => index.add(primary_id, embedding@, in_progress),
            Request::Message(Message::Modify(VsIndexModify::RemoveVector {
                primary_id,
                in_progress,
            })) => index.remove(primary_id, in_progress),
            _ => index,
        }
    }

    /// Whether `effect` is what an index leaves to do for the request.
    pub open spec fn handled(
        self,
        index: IndexView<T, P>,
        index_id_known: bool,
        effect: Effect<A, C>,
    ) -> bool {
        match self {
            Request::Flush => if index.waiting.len() == 0 {
                effect is Flushed
            } else {
                &&& effect matches Effect::Build(job)
                &&& job.rows == index.rows.ids.len()
                &&& job.columns == index.rows.dimensions
            },
            Request::Message(Message::Modify(VsIndexModify::RemovePartition)) =>
                effect is NotImplemented,
            Request::Message(Message::Modify(_)) => effect is Done,
            Request::Message(Message::Search(search)) => {
                &&& effect matches Effect::Reply(reply)
                &&& reply.answers(search)
                &&& match search {
                    VsIndexSearch::Count { index_key, .. } => if index_id_known {
                        reply matches Reply::Count { result: Ok(count), .. } && count
                            == index.built
                    } else {
                        reply.error() == Some(RequestError::IndexIdNotFound { index_key })
                    },
                    _ => reply.error() == Some(RequestError::SearchNotImplemented),
                }
            },
        }
    }

    /// Whether `effect` is what is left to do for the request where there is no
    /// index, for the reason given.
    pub open spec fn turned_down(self, reason: Seq<char>, effect: Effect<A, C>) -> bool {
        match self {
            Request::Message(Message::Search(search)) => {
                &&& effect matches Effect::Reply(reply)
                &&& reply.answers(search)
                &&& reply.error() matches Some(error)
                &&& error.message() == "cuVS index is unavailable: "@ + reason
            },
            _ => effect is Done,
        }
    }
}

/// The rows to build where a write is waiting for a build, else nothing.
pub fn build_if_pending<T, P>(index: &CuvsIndex<T, P>) -> (job: Option<BuildJob>)
    requires
        index.wf(),
    ensures
        job is Some <==> index@.waiting.len() > 0,
        job matches Some(j) ==> {
            &&& j.rows == index@.rows.ids.len()
            &&& j.columns == index@.rows.dimensions
        },
{
    if index.pending() == 0 {
        return None;
    }
    let rows = index.rows();
    Some(BuildJob { rows: rows.ids().len(), columns: rows.dimensions() })
}

/// Takes in how a build ended: a success gives out the tokens of the writes
/// that it covers, a failure the line to log.
pub fn finish_build<T, P>(
    index: &mut CuvsIndex<T, P>,
    index_key: &IndexKey,
    outcome: Result<(), String>,
) -> (released: Result<Vec<P>, String>)
    requires
        old(index).wf(),
    ensures
        final(index).wf(),
        match outcome {
            Ok(_) => {
                &&& released matches Ok(tokens) && tokens@ == old(index)@.waiting
                &&& final(index)@ == old(index)@.built_now()
                &&& final(index)@.rows == old(index)@.rows
                &&& final(index)@.waiting.len() == 0
                &&& final(index)@.built == old(index)@.rows.ids.len()
            },
            Err(err) => {
                &&& released matches Err(line) && line@ == "Unable to build cuVS index "@
                    + index_key.text() + ": "@ + err@
                &&& final(index)@ == old(index)@
            },
        },
{
    match index.build(outcome) {
        Ok(tokens) => Ok(tokens),
        Err(err) => {
            let mut line = "Unable to build cuVS index ".to_string();
            line.append(index_key.as_str());
            line.append(": ");
            line.append(err.as_str());
            Err(line)
        },
    }
}

/// Takes a request in. `index_id_known` says whether the table knows the index
/// that the request asks about; it matters to a count only.
pub fn handle<T: Copy, P, A, C>(
    index: &mut CuvsIndex<T, P>,
    request: Request<T, P, A, C>,
    index_id_known: bool,
) -> (effect: Effect<A, C>)
    requires
        old(index).wf(),
        request.fits(old(index)@.rows),
    ensures
        final(index).wf(),
        final(index)@ == request.applied_to(old(index)@),
        request.handled(old(index)@, index_id_known, effect),
        request matches Request::Message(
            Message::Modify(VsIndexModify::AddVector { primary_id, embedding, in_progress }),
        ) ==> {
            &&& final(index)@.built == old(index)@.built
            &&& final(index)@.waiting == old(index)@.waiting.push(in_progress)
            &&& !old(index)@.rows.ids.contains(primary_id) ==> final(index)@.rows.ids == old(index)@.rows.ids.push(
                primary_id,
            ) && final(index)@.rows.values == old(index)@.rows.values + embedding@
            &&& old(index)@.rows.ids.contains(primary_id) ==> final(index)@.rows.ids == old(index)@.rows.ids
            &&& old(index)@.rows.values.len() == old(index)@.rows.ids.len() * old(index)@.rows.dimensions
                && embedding@.len() == old(index)@.rows.dimensions ==> final(index)@.rows.values.len()
                == final(index)@.rows.ids.len() * final(index)@.rows.dimensions && final(index)@.rows.vectors()
                == old(index)@.rows.vectors().insert(primary_id, embedding@)
        },
        request matches Request::Message(
            Message::Modify(VsIndexModify::RemoveVector { primary_id, in_progress }),
        ) ==> {
            &&& final(index)@.built == old(index)@.built
            &&& final(index)@.waiting == old(index)@.waiting.push(in_progress)
            &&& final(index)@.rows.values.len() == final(index)@.rows.ids.len() * final(index)@.rows.dimensions
            &&& final(index)@.rows.vectors() == old(index)@.rows.vectors().remove(primary_id)
        },
        !(request matches Request::Message(
            Message::Modify(VsIndexModify::AddVector { .. }),
        )) && !(request matches Request::Message(
            Message::Modify(VsIndexModify::RemoveVector { .. }),
        )) ==> final(index)@ == old(index)@,
        match request {
            Request::Flush => if old(index)@.waiting.len() == 0 {
                effect is Flushed
            } else {
                effect matches Effect::Build(job) && job.rows == old(index)@.rows.ids.len()
                    && job.columns == old(index)@.rows.dimensions
            },
            Request::Message(Message::Modify(VsIndexModify::RemovePartition)) => effect is NotImplemented,
            Request::Message(Message::Modify(VsIndexModify::AddVector { .. })) => effect is Done,
            Request::Message(Message::Modify(VsIndexModify::RemoveVector { .. })) => effect is Done,
            Request::Message(Message::Search(VsIndexSearch::Count { index_key, tx })) => if index_id_known {
                effect matches Effect::Reply(Reply::Count { tx: to, result: Ok(count) }) && to
                    == tx && count == old(index)@.built
            } else {
                effect == Effect::<A, C>::Reply(
                    Reply::Count { tx, result: Err(RequestError::IndexIdNotFound { index_key }) },
                )
            },
            Request::Message(Message::Search(VsIndexSearch::Ann { tx })) => effect
                == Effect::<A, C>::Reply(
                Reply::Ann { tx, error: RequestError::SearchNotImplemented },
            ),
            Request::Message(Message::Search(VsIndexSearch::FilteredAnn { tx })) => effect
                == Effect::<A, C>::Reply(
                Reply::Ann { tx, error: RequestError::SearchNotImplemented },
            ),
        },
{
    match request {
        Request::Flush => match build_if_pending(index) {
            Some(job) => Effect::Build(job),
            None => Effect::Flushed,
        },
        Request::Message(Message::Modify(VsIndexModify::AddVector {
            primary_id,
            embedding,
            in_progress,
        })) => {
            index.add(primary_id, embedding.as_slice(), in_progress);
            Effect::Done
        },
        Request::Message(Message::Modify(VsIndexModify::RemoveVector {
            primary_id,
            in_progress,
        })) => {
            index.remove(primary_id, in_progress);
            Effect::Done
        },
        Request::Message(Message::Modify(VsIndexModify::RemovePartition)) => Effect::NotImplemented,
        Request::Message(Message::Search(VsIndexSearch::Count { index_key, tx })) => {
            let result: Result<usize, RequestError> = if index_id_known {
                Ok(index.count())
            } else {
                Err(RequestError::IndexIdNotFound { index_key })
            };
            Effect::Reply(Reply::Count { tx, result })
        },
        Request::Message(Message::Search(VsIndexSearch::Ann { tx })) => Effect::Reply(
            Reply::Ann { tx, error: RequestError::SearchNotImplemented },
        ),
        Request::Message(Message::Search(VsIndexSearch::FilteredAnn { tx })) => Effect::Reply(
            Reply::Ann { tx, error: RequestError::SearchNotImplemented },
        ),
    }
}

/// A request to add stores its vector under its own identifier, and a request to
/// remove forgets what is stored under its own; every other identifier keeps its
/// vector. Either is waited for, and neither is counted yet. No other request
/// changes anything.
pub proof fn law_a_write_changes_its_own_vector_only<T, P, A, C>(
    request: Request<T, P, A, C>,
    index: IndexView<T, P>,
    other: PrimaryId,
)
    requires
        index.rows.dimensions > 0,
        index.rows.ids.no_duplicates(),
        index.rows.values.len() == index.rows.ids.len() * index.rows.dimensions,
        request matches Request::Message(
            Message::Modify(VsIndexModify::AddVector { embedding, .. }),
        ) ==> embedding@.len() == index.rows.dimensions,
    ensures
        request.fits(index.rows),
        match request {
            Request::Message(Message::Modify(VsIndexModify::AddVector {
                primary_id,
                embedding,
                in_progress,
            })) => {
                let after = request.applied_to(index);
                &&& after.rows.vectors().contains_key(primary_id)
                &&& after.rows.vectors()[primary_id] == embedding@
                &&& other != primary_id ==> after.rows.vectors().contains_key(other)
                    == index.rows.vectors().contains_key(other)
                &&& other != primary_id && index.rows.vectors().contains_key(other)
                    ==> after.rows.vectors()[other] == index.rows.vectors()[other]
                &&& after.waiting == index.waiting.push(in_progress)
                &&& after.built == index.built
            },
            Request::Message(Message::Modify(VsIndexModify::RemoveVector {
                primary_id,
                in_progress,
            })) => {
                let after = request.applied_to(index);
                &&& !after.rows.vectors().contains_key(primary_id)
                &&& other != primary_id ==> after.rows.vectors().contains_key(other)
                    == index.rows.vectors().contains_key(other)
                &&& other != primary_id && index.rows.vectors().contains_key(other)
                    ==> after.rows.vectors()[other] == index.rows.vectors()[other]
                &&& after.waiting == index.waiting.push(in_progress)
                &&& after.built == index.built
            },
            _ => request.applied_to(index) == index,
        },
{
    match request {
        Request::Message(Message::Modify(VsIndexModify::AddVector {
            primary_id,
            embedding,
            ..
        })) => {
            crate::cuvs::index::law_upsert_stores_the_vector(index.rows, primary_id, embedding@);
        },
        Request::Message(Message::Modify(VsIndexModify::RemoveVector { primary_id, .. })) => {
            crate::cuvs::index::law_remove_forgets_the_vector(index.rows, primary_id);
        },
        _ => {},
    }
}

/// Removing what was just added leaves the vectors as they were without it, and
/// adding what was just removed leaves it stored: of two writes to the same
/// identifier the later one counts.
pub proof fn law_the_later_of_two_writes_counts<T, P, A, C>(
    primary_id: PrimaryId,
    embedding: Vec<T>,
    added: P,
    removed: P,
    index: IndexView<T, P>,
)
    requires
        index.rows.dimensions > 0,
        index.rows.ids.no_duplicates(),
        index.rows.values.len() == index.rows.ids.len() * index.rows.dimensions,
        embedding@.len() == index.rows.dimensions,
    ensures
        ({
            let add = Request::<T, P, A, C>::Message(
                Message::Modify(
                    VsIndexModify::AddVector { primary_id, embedding, in_progress: added },
                ),
            );
            let remove = Request::<T, P, A, C>::Message(
                Message::Modify(VsIndexModify::RemoveVector { primary_id, in_progress: removed }),
            );
            let vectors = index.rows.vectors();
            &&& remove.applied_to(add.applied_to(index)).rows.vectors() == vectors.remove(primary_id)
            &&& add.applied_to(remove.applied_to(index)).rows.vectors() == vectors.insert(
                primary_id,
                embedding@,
            )
            &&& remove.applied_to(add.applied_to(index)).waiting == index.waiting.push(added).push(
                removed,
            )
        }),
{
    crate::cuvs::index::law_upsert_stores_the_vector(index.rows, primary_id, embedding@);
    crate::cuvs::index::law_remove_forgets_the_vector(index.rows, primary_id);
    let added_rows = index.rows.upsert(primary_id, embedding@);
    let removed_rows = index.rows.remove(primary_id);
    crate::cuvs::index::law_remove_forgets_the_vector(added_rows, primary_id);
    crate::cuvs::index::law_upsert_stores_the_vector(removed_rows, primary_id, embedding@);
    let vectors = index.rows.vectors();
    assert(vectors.insert(primary_id, embedding@).remove(primary_id) =~= vectors.remove(
        primary_id,
    ));
    assert(vectors.remove(primary_id).insert(primary_id, embedding@) =~= vectors.insert(
        primary_id,
        embedding@,
    ));
}

/// A count that is asked for right after a successful build is answered with the
/// number of identifiers that have a vector.
pub proof fn law_a_count_after_a_build_is_the_number_of_vectors<T, P, A, C>(
    index: IndexView<T, P>,
    index_key: IndexKey,
    tx: C,
    effect: Effect<A, C>,
)
    requires
        index.rows.ids.no_duplicates(),
        Request::<T, P, A, C>::Message(
            Message::Search(VsIndexSearch::Count { index_key, tx }),
        ).handled(index.built_now(), true, effect),
    ensures
        effect matches Effect::Reply(Reply::Count { tx: to, result: Ok(count) }) && to == tx
            && count == index.rows.vectors().dom().len(),
{
    crate::cuvs::index::law_count_reflects_the_built_index(index);
}

/// The worker: it serves an index, or turns everything down because there is
/// none.
#[derive(Debug)]
pub enum Worker<T, P> {
    Serving(CuvsIndex<T, P>),
    Unavailable { reason: String },
}

impl<T, P> Worker<T, P> {
    /// Whether the index, if there is one, is in order.
    pub open spec fn wf(&self) -> bool {
        self matches Worker::Serving(index) ==> index.wf()
    }

    /// Starts the worker. `resources` says whether the GPU could be set up.
    pub fn start(dimensions: Dimensions, resources: Result<(), String>) -> (worker: Self)
        ensures
            worker.wf(),
            match resources {
                Ok(_) => {
                    &&& worker matches Worker::Serving(index) && index@.rows == (RowsView::<T> {
                        dimensions: dimensions.value() as nat,
                        ids: Seq::empty(),
                        values: Seq::empty(),
                    }) && index@.waiting == Seq::<P>::empty() && index@.built == 0
                },
                Err(err) => worker == Worker::<T, P>::Unavailable { reason: err },
            },
    {
        match resources {
            Ok(_) => Worker::Serving(CuvsIndex::new(dimensions)),
            Err(err) => Worker::Unavailable { reason: err },
        }
    }

    /// The line to log for a worker that has no index.
    pub fn start_report(&self, index_key: &IndexKey) -> (report: Option<String>)
        ensures
            report is Some <==> self is Unavailable,
            report matches Some(line) ==> line@ == "unable to create cuVS index for "@
                + index_key.text() + ": "@ + self->reason@,
    {
        match self {
            Worker::Serving(_) => None,
            Worker::Unavailable { reason } => {
                let mut line = "unable to create cuVS index for ".to_string();
                line.append(index_key.as_str());
                line.append(": ");
                line.append(reason.as_str());
                Some(line)
            },
        }
    }
}

impl<T, P> Worker<T, P> {
    /// Whether the worker can take a request in.
    pub open spec fn can_take<A, C>(&self, request: Request<T, P, A, C>) -> bool {
        self matches Worker::Serving(index) ==> request.fits(index@.rows)
    }

    /// Whether the worker can take a request in: a worker without an index
    /// takes any, an index those that fit its rows.
    pub fn takes<A, C>(&self, request: &Request<T, P, A, C>) -> (taken: bool)
        requires
            self.wf(),
        ensures
            taken == self.can_take(*request),
            *self matches Worker::Serving(index) ==> taken == match *request {
                Request::Message(Message::Modify(VsIndexModify::AddVector { primary_id, embedding, .. })) =>
                    index@.rows.ids.contains(primary_id) ==> embedding@.len()
                        == index@.rows.dimensions && index@.rows.ids.index_of(primary_id)
                        * index@.rows.dimensions + embedding@.len() <= index@.rows.values.len(),
                Request::Message(Message::Modify(VsIndexModify::RemoveVector { .. })) =>
                    index@.rows.values.len() == index@.rows.ids.len() * index@.rows.dimensions,
                _ => true,
            },
            *self is Unavailable ==> taken,
    {
        match self {
            Worker::Serving(index) => match request {
                Request::Message(Message::Modify(VsIndexModify::AddVector {
                    primary_id,
                    embedding,
                    ..
                })) => index.rows().accepts(*primary_id, embedding.len()),
                Request::Message(Message::Modify(VsIndexModify::RemoveVector { .. })) => {
                    index.rows().is_aligned()
                },
                _ => true,
            },
            Worker::Unavailable { .. } => true,
        }
    }
}

impl<T: Copy, P> Worker<T, P> {
    /// Takes the next request from the queue. Every question is answered, also
    /// where there is no index; a flush without an index is ignored, and leaves
    /// the flush flag raised.
    pub fn process<A, C>(&mut self, request: Request<T, P, A, C>, index_id_known: bool) -> (effect:
        Effect<A, C>)
        requires
            old(self).wf(),
            old(self).can_take(request),
        ensures
            final(self).wf(),
            match *old(self) {
                Worker::Serving(index) => {
                    &&& *final(self) matches Worker::Serving(after)
                    &&& after@ == request.applied_to(index@)
                    &&& request.handled(index@, index_id_known, effect)
                },
                Worker::Unavailable { reason } => {
                    &&& *final(self) == *old(self)
                    &&& request.turned_down(reason@, effect)
                },
            },
            *old(self) matches Worker::Serving(before) ==> (*final(self) matches Worker::Serving(after) && ({
                    &&& (request matches Request::Message(
                        Message::Modify(VsIndexModify::AddVector { primary_id, embedding, in_progress }),
                    ) ==> {
                        &&& after@.built == before@.built
                        &&& after@.waiting == before@.waiting.push(in_progress)
                        &&& !before@.rows.ids.contains(primary_id) ==> after@.rows.ids == before@.rows.ids.push(
                            primary_id,
                        ) && after@.rows.values == before@.rows.values + embedding@
                        &&& before@.rows.ids.contains(primary_id) ==> after@.rows.ids == before@.rows.ids
                        &&& before@.rows.values.len() == before@.rows.ids.len() * before@.rows.dimensions
                            && embedding@.len() == before@.rows.dimensions ==> after@.rows.values.len()
                            == after@.rows.ids.len() * after@.rows.dimensions && after@.rows.vectors()
                            == before@.rows.vectors().insert(primary_id, embedding@)
                    })
                    &&& (request matches Request::Message(
                        Message::Modify(VsIndexModify::RemoveVector { primary_id, in_progress }),
                    ) ==> {
                        &&& after@.built == before@.built
                        &&& after@.waiting == before@.waiting.push(in_progress)
                        &&& after@.rows.values.len() == after@.rows.ids.len() * after@.rows.dimensions
                        &&& after@.rows.vectors() == before@.rows.vectors().remove(primary_id)
                    })
                    &&& (!(request matches Request::Message(
                        Message::Modify(VsIndexModify::AddVector { .. }),
                    )) && !(request matches Request::Message(
                        Message::Modify(VsIndexModify::RemoveVector { .. }),
                    )) ==> after@ == before@)
                    &&& (match request {
                        Request::Flush => if before@.waiting.len() == 0 {
                            effect is Flushed
                        } else {
                            effect matches Effect::Build(job) && job.rows == before@.rows.ids.len()
                                && job.columns == before@.rows.dimensions
                        },
                        Request::Message(Message::Modify(VsIndexModify::RemovePartition)) => effect is NotImplemented,
                        Request::Message(Message::Modify(VsIndexModify::AddVector { .. })) => effect is Done,
                        Request::Message(Message::Modify(VsIndexModify::RemoveVector { .. })) => effect is Done,
                        Request::Message(Message::Search(VsIndexSearch::Count { index_key, tx })) => if index_id_known {
                            effect matches Effect::Reply(Reply::Count { tx: to, result: Ok(count) }) && to
                                == tx && count == before@.built
                        } else {
                            effect == Effect::<A, C>::Reply(
                                Reply::Count { tx, result: Err(RequestError::IndexIdNotFound { index_key }) },
                            )
                        },
                        Request::Message(Message::Search(VsIndexSearch::Ann { tx })) => effect
                            == Effect::<A, C>::Reply(
                            Reply::Ann { tx, error: RequestError::SearchNotImplemented },
                        ),
                        Request::Message(Message::Search(VsIndexSearch::FilteredAnn { tx })) => effect
                            == Effect::<A, C>::Reply(
                            Reply::Ann { tx, error: RequestError::SearchNotImplemented },
                        ),
                    })
                })),
            *old(self) matches Worker::Unavailable { reason } ==> match request {
                Request::Message(Message::Search(VsIndexSearch::Ann { tx })) => effect matches Effect::Reply(
                    Reply::Ann { tx: to, error: RequestError::Unavailable { reason: given } },
                ) && to == tx && given@ == reason@,
                Request::Message(Message::Search(VsIndexSearch::FilteredAnn { tx })) => effect matches Effect::Reply(
                    Reply::Ann { tx: to, error: RequestError::Unavailable { reason: given } },
                ) && to == tx && given@ == reason@,
                Request::Message(Message::Search(VsIndexSearch::Count { tx, .. })) => effect matches Effect::Reply(
                    Reply::Count { tx: to, result: Err(RequestError::Unavailable { reason: given }) },
                ) && to == tx && given@ == reason@,
                Request::Message(Message::Modify(_)) => effect is Done,
                Request::Flush => effect is Done,
            },
            request matches Request::Message(Message::Search(search)) ==> (effect matches Effect::Reply(
                reply,
            ) && reply.answers(search)),
            request.flush_event(effect) == if request is Flush {
                Some(
                    if *old(self) is Serving {
                        FlushEvent::Served
                    } else {
                        FlushEvent::Ignored
                    },
                )
            } else {
                None
            },
            request is Flush ==> forall|state: FlushState|
                state.outstanding > 0 ==> (#[trigger] state.after(
                    request.flush_event(effect)->0,
                )).queued == (state.queued && effect is Done),
    {
        match self {
            Worker::Serving(index) => handle(index, request, index_id_known),
            Worker::Unavailable { reason } => match request {
                Request::Message(msg) => {
                    let err = RequestError::Unavailable { reason: reason.clone() };
                    match reject(msg, err) {
                        Some(reply) => Effect::Reply(reply),
                        None => Effect::Done,
                    }
                },
                Request::Flush => Effect::Done,
            },
        }
    }
}

/// What the forwarding loop of an index finds ready.
#[derive(Debug)]
pub struct Ready<T, P, A, C> {
    /// A message, or the news that no more will come.
    pub received: Option<Option<Message<T, P, A, C>>>,
    /// Whether a tick of the build timer is due.
    pub tick: bool,
}

/// What the forwarding loop turns to.
#[derive(Debug)]
pub enum Taken<T, P, A, C> {
    /// A message, or the news that no more will come.
    Received(Option<Message<T, P, A, C>>),
    /// A tick of the build timer.
    Tick,
}

impl<T, P, A, C> Ready<T, P, A, C> {
    /// What is taken first: the message where there is one, else the tick.
    pub open spec fn first(self) -> Option<Taken<T, P, A, C>> {
        match self.received {
            Some(received) => Some(Taken::Received(received)),
            None => if self.tick {
                Some(Taken::Tick)
            } else {
                None
            },
        }
    }

    /// What stays ready once the first was taken.
    pub open spec fn rest(self) -> Self {
        match self.received {
            Some(_) => Ready { received: None, tick: self.tick },
            None => Ready { received: None, tick: false },
        }
    }

    /// Nothing is ready at first.
    pub fn new() -> (ready: Self)
        ensures
            ready == (Ready::<T, P, A, C> { received: None, tick: false }),
    {
        Ready { received: None, tick: false }
    }

    /// Takes what the loop turns to next. Real work goes before the build timer:
    /// a tick waits for as long as a message is ready. `None` where nothing is.
    pub fn take(&mut self) -> (taken: Option<Taken<T, P, A, C>>)
        ensures
            taken == old(self).first(),
            *final(self) == old(self).rest(),
            taken == match old(self).received {
                Some(received) => Some(Taken::<T, P, A, C>::Received(received)),
                None => if old(self).tick {
                    Some(Taken::<T, P, A, C>::Tick)
                } else {
                    None
                },
            },
            final(self).received is None,
            final(self).tick == (old(self).tick && old(self).received is Some),
    {
        match self.received.take() {
            Some(received) => Some(Taken::Received(received)),
            None => if self.tick {
                self.tick = false;
                Some(Taken::Tick)
            } else {
                None
            },
        }
    }
}

/// Of a message and a tick that are both ready the message is taken, and the
/// tick stays due; a tick is taken only where no message is ready.
pub proof fn law_a_message_goes_before_a_tick<T, P, A, C>(ready: Ready<T, P, A, C>)
    ensures
        ready.received is Some ==> ready.first() == Some(
            Taken::<T, P, A, C>::Received(ready.received->0),
        ),
        ready.received is Some ==> ready.rest().tick == ready.tick,
        ready.first() == Some(Taken::<T, P, A, C>::Tick) ==> ready.received is None && ready.tick,
        ready.received is Some && ready.tick ==> ready.rest().first() == Some(
            Taken::<T, P, A, C>::Tick,
        ),
{
}

/// What the forwarding loop of an index waits for.
#[derive(Debug)]
pub enum LoopEvent<T, P, A, C> {
    /// A message, or the news that no more will come.
    Received(Option<Message<T, P, A, C>>),
    /// The build timer ticked and raised the flush flag; `was_queued` is what
    /// the flag held before.
    Tick { was_queued: bool },
    /// The worker takes no more requests.
    WorkerGone,
}

/// What the forwarding loop does next.
#[derive(Debug)]
pub enum LoopAction<T, P, A, C> {
    /// Hand a request to the worker.
    Forward(Request<T, P, A, C>),
    /// Wait for the next event.
    Wait,
    /// End the loop.
    Stop,
}

/// Decides what the forwarding loop does: messages go to the worker, a tick
/// queues a flush where none is queued, and the loop ends with its clients or
/// with the worker.
pub fn next_action<T, P, A, C>(event: LoopEvent<T, P, A, C>) -> (action: LoopAction<T, P, A, C>)
    ensures
        match event {
            LoopEvent::Received(Some(msg)) => action == LoopAction::Forward(
                Request::Message(msg),
            ),
            LoopEvent::Tick { was_queued: false } => action
                == LoopAction::<T, P, A, C>::Forward(Request::Flush),
            LoopEvent::Tick { was_queued: true } => action is Wait,
            LoopEvent::Received(None) => action is Stop,
            LoopEvent::WorkerGone => action is Stop,
        },
        event matches LoopEvent::Tick { was_queued } ==> forall|state: FlushState|
            state.queued == was_queued ==> (#[trigger] state.after(FlushEvent::Tick)).outstanding
                == state.outstanding + if action is Forward {
                1int
            } else {
                0int
            },
{
    match event {
        LoopEvent::Received(Some(msg)) => LoopAction::Forward(Request::Message(msg)),
        LoopEvent::Received(None) => LoopAction::Stop,
        LoopEvent::Tick { was_queued } => if was_queued {
            LoopAction::Wait
        } else {
            LoopAction::Forward(Request::Flush)
        },
        LoopEvent::WorkerGone => LoopAction::Stop,
    }
}

/// The name of the thread that runs the worker of an index.
pub fn thread_name(index_key: &IndexKey) -> (name: String)
    ensures
        name@ == "cuvs-"@ + index_key.text(),
{
    let mut name = "cuvs-".to_string();
    name.append(index_key.as_str());
    name
}

/// The message for a worker thread that could not be started.
pub fn spawn_error(index_key: &IndexKey, err: &str) -> (text: String)
    ensures
        text@ == "unable to spawn cuVS thread for "@ + index_key.text() + ": "@ + err@,
{
    let mut text = "unable to spawn cuVS thread for ".to_string();
    text.append(index_key.as_str());
    text.append(": ");
    text.append(err);
    text
}

/// What can happen to the flush flag and to the flushes on their way to the
/// worker.
pub enum FlushEvent {
    /// The timer ticked: the flag is raised, and a flush is queued where the
    /// flag was down.
    Tick,
    /// The worker took a flush and is done with it: the flag is lowered.
    Served,
    /// A worker without an index took a flush and ignored it.
    Ignored,
}

/// The flush flag, and the number of flushes that were queued and are not dealt
/// with.
pub struct FlushState {
    pub queued: bool,
    pub outstanding: nat,
}

impl FlushState {
    /// Nothing is queued at first.
    pub open spec fn initial() -> FlushState {
        FlushState { queued: false, outstanding: 0 }
    }

    /// The state after an event; the worker can only take what is there.
    pub open spec fn after(self, event: FlushEvent) -> FlushState {
        match event {
            FlushEvent::Tick => FlushState {
                queued: true,
                outstanding: self.outstanding + if self.queued {
                    0nat
                } else {
                    1nat
                },
            },
            FlushEvent::Served => if self.outstanding > 0 {
                FlushState { queued: false, outstanding: (self.outstanding - 1) as nat }
            } else {
                self
            },
            FlushEvent::Ignored => if self.outstanding > 0 {
                FlushState { outstanding: (self.outstanding - 1) as nat, ..self }
            } else {
                self
            },
        }
    }

    /// The state after a run of events.
    pub open spec fn after_all(self, events: Seq<FlushEvent>) -> FlushState
        decreases events.len(),
    {
        if events.len() == 0 {
            self
        } else {
            self.after_all(events.drop_last()).after(events.last())
        }
    }
}

/// However ticks and the worker interleave, there is never more than one flush
/// on its way.
pub proof fn law_at_most_one_flush_is_queued(events: Seq<FlushEvent>)
    ensures
        FlushState::initial().after_all(events).outstanding <= 1,
        FlushState::initial().after_all(events).outstanding == 1
            ==> FlushState::initial().after_all(events).queued,
    decreases events.len(),
{
    if events.len() > 0 {
        law_at_most_one_flush_is_queued(events.drop_last());
    }
}

/// Once the worker is done with a flush, the next tick queues another.
pub proof fn law_a_served_flush_makes_room_for_the_next(events: Seq<FlushEvent>)
    requires
        FlushState::initial().after_all(events).outstanding > 0,
    ensures
        FlushState::initial().after_all(events).after(FlushEvent::Served).after(
            FlushEvent::Tick,
        ) == (FlushState { queued: true, outstanding: 1 }),
{
    law_at_most_one_flush_is_queued(events);
}

} // verus!
