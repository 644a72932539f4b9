use std::ops::Range;
use vector_store::cuvs::factory::{new_cuvs, CreateIndexError, CuvsIndexFactory};
use vector_store::cuvs::index::CuvsIndex;
use vector_store::cuvs::worker::{
    finish_build, next_action, reject, spawn_error, thread_name, Effect, LoopAction, LoopEvent,
    Message, Ready, Reply, Request, RequestError, Taken, VsIndexModify, VsIndexSearch, Worker,
};
use vector_store::types::{
    Connectivity, Dimensions, ExpansionAdd, ExpansionSearch, IndexKey, IndexName, KeyspaceName,
    PrimaryId, Quantization, SpaceType, VsIndexConfiguration,
};

const TEST_ROWS: usize = 256;
const TEST_DIMENSIONS: usize = 4;

type TestRequest = Request<f32, u64, &'static str, &'static str>;
type TestMessage = Message<f32, u64, &'static str, &'static str>;

fn index_key() -> IndexKey {
    IndexKey::new(
        &KeyspaceName("vector".to_string()),
        &IndexName("store".to_string()),
    )
}

fn configuration() -> VsIndexConfiguration {
    VsIndexConfiguration {
        key: index_key(),
        dimensions: Dimensions::new(TEST_DIMENSIONS).unwrap(),
        connectivity: Connectivity::default(),
        expansion_add: ExpansionAdd::default(),
        expansion_search: ExpansionSearch::default(),
        space_type: SpaceType::default(),
        quantization: Quantization::default(),
    }
}

struct Harness {
    worker: Worker<f32, u64>,
}

fn harness() -> Harness {
    Harness {
        worker: Worker::start(Dimensions::new(TEST_DIMENSIONS).unwrap(), Ok(())),
    }
}

fn embedding(row: usize) -> Vec<f32> {
    (0..TEST_DIMENSIONS)
        .map(|col| (row * TEST_DIMENSIONS + col) as f32 * 0.001)
        .collect()
}

impl Harness {
    fn index(&mut self) -> &mut CuvsIndex<f32, u64> {
        match &mut self.worker {
            Worker::Serving(index) => index,
            Worker::Unavailable { reason } => panic!("{reason}"),
        }
    }

    /// Sends a flush and lets the build that it asks for end as given.
    fn flush(&mut self, outcome: Result<(), String>) -> Result<Vec<u64>, String> {
        match self.worker.process(TestRequest::Flush, true) {
            Effect::Build(job) => {
                assert_eq!(job.columns, TEST_DIMENSIONS);
                assert_eq!(job.rows, self.index().rows().ids().len());
                assert_eq!(
                    job.rows * job.columns,
                    self.index().rows().values().len()
                );
                finish_build(self.index(), &index_key(), outcome)
            }
            Effect::Flushed => Ok(vec![]),
            effect => panic!("{effect:?}"),
        }
    }

    fn add_rows(&mut self, rows: Range<usize>) {
        let tokens: Vec<u64> = rows.clone().map(|row| row as u64).collect();
        for row in rows {
            let effect = self.worker.process(
                TestRequest::Message(Message::Modify(VsIndexModify::AddVector {
                    primary_id: PrimaryId::from(row as u64),
                    embedding: embedding(row),
                    in_progress: row as u64,
                })),
                true,
            );
            assert!(matches!(effect, Effect::Done));
        }
        assert_eq!(self.flush(Ok(())), Ok(tokens));
    }

    fn remove_rows(&mut self, rows: Range<usize>) {
        let tokens: Vec<u64> = rows.clone().map(|row| row as u64).collect();
        for row in rows {
            let effect = self.worker.process(
                TestRequest::Message(Message::Modify(VsIndexModify::RemoveVector {
                    primary_id: PrimaryId::from(row as u64),
                    in_progress: row as u64,
                })),
                true,
            );
            assert!(matches!(effect, Effect::Done));
        }
        assert_eq!(self.flush(Ok(())), Ok(tokens));
    }

    fn count(&mut self, known: bool) -> Result<usize, RequestError> {
        let effect = self.worker.process(
            TestRequest::Message(Message::Search(VsIndexSearch::Count {
                index_key: index_key(),
                tx: "count",
            })),
            known,
        );
        match effect {
            Effect::Reply(Reply::Count { tx: "count", result }) => result,
            effect => panic!("{effect:?}"),
        }
    }
}

#[test]
fn count_reflects_the_built_index() {
    let mut harness = harness();
    harness.add_rows(0..TEST_ROWS);

    assert_eq!(harness.count(true).unwrap(), TEST_ROWS);
}

#[test]
fn a_later_write_reaches_a_later_build() {
    let mut harness = harness();
    harness.add_rows(0..TEST_ROWS);
    harness.add_rows(TEST_ROWS..TEST_ROWS + 8);

    assert_eq!(harness.count(true).unwrap(), TEST_ROWS + 8);
}

#[test]
fn removing_a_row_lowers_the_count() {
    let mut harness = harness();
    harness.add_rows(0..TEST_ROWS);

    harness.remove_rows(0..1);

    assert_eq!(harness.count(true).unwrap(), TEST_ROWS - 1);
}

#[test]
fn index_engine_version_reports_cuvs_library_version() {
    let factory = CuvsIndexFactory;
    let (major, minor, patch) = (26u16, 10u16, 0u16);
    assert_eq!(
        factory.index_engine_version(Ok((major, minor, patch))),
        format!("cuvs-{major}.{minor}.{patch}")
    );
    assert_eq!(
        factory.index_engine_version(Err("no library".to_string())),
        "cuvs-unknown (no library)"
    );
}

#[test]
fn create_index_rejects_a_local_index() {
    let err = CuvsIndexFactory
        .create_index(configuration(), Some(false))
        .unwrap_err();
    assert!(err.to_string().contains("local indexes"));
    assert_eq!(
        err.to_string(),
        "cuVS does not support local indexes yet: vector.store"
    );
    // An index that the table does not know is not global either.
    assert!(matches!(
        CuvsIndexFactory.create_index(configuration(), None),
        Err(CreateIndexError::LocalIndex { .. })
    ));
}

#[test]
fn create_index_starts_a_global_index() {
    let start = CuvsIndexFactory
        .create_index(configuration(), Some(true))
        .unwrap();
    assert_eq!(start.key.as_str(), "vector.store");
    assert_eq!(start.dimensions.get(), TEST_DIMENSIONS);
    assert_eq!(start.params.graph_degree, 16);
    assert_eq!(start.params.intermediate_graph_degree, 128);
    assert_eq!(start.flush_interval_secs, 5);
}

#[test]
fn create_index_rejects_unsuitable_parameters() {
    let config = VsIndexConfiguration {
        space_type: SpaceType::Hamming,
        ..configuration()
    };
    let err = CuvsIndexFactory.create_index(config, Some(true)).unwrap_err();
    assert!(matches!(err, CreateIndexError::Params(_)));
    assert!(err.to_string().contains("Hamming"));
}

#[test]
fn new_cuvs_needs_a_gpu() {
    assert!(new_cuvs(Ok(())).is_ok());
    assert_eq!(
        new_cuvs(Err("no device".to_string())).unwrap_err(),
        "failed to initialize cuVS/CUDA resources: no device. \
         Check that the machine has a GPU with a working NVIDIA driver, \
         or unset VECTOR_STORE_USE_GPU to fall back to the default USearch backend."
    );
}

#[test]
fn a_write_is_not_counted_before_it_is_built() {
    let mut harness = harness();
    harness.add_rows(0..2);
    harness.index().add(PrimaryId::from(9), &[0.0; 4], 9);
    assert_eq!(harness.count(true).unwrap(), 2);
    assert_eq!(harness.index().pending(), 1);
}

#[test]
fn a_failed_build_keeps_its_writes_pending() {
    let mut harness = harness();
    harness.index().add(PrimaryId::from(1), &[0.0; 4], 1);
    assert_eq!(
        harness.flush(Err("no memory".to_string())),
        Err("Unable to build cuVS index vector.store: no memory".to_string())
    );
    assert_eq!(harness.index().pending(), 1);
    assert_eq!(harness.count(true).unwrap(), 0);
    assert_eq!(harness.flush(Ok(())), Ok(vec![1]));
    assert_eq!(harness.count(true).unwrap(), 1);
}

#[test]
fn a_flush_without_writes_builds_nothing() {
    let mut harness = harness();
    assert!(matches!(
        harness.worker.process(TestRequest::Flush, true),
        Effect::Flushed
    ));
}

#[test]
fn counting_an_unknown_index_is_an_error() {
    let mut harness = harness();
    let err = harness.count(false).unwrap_err();
    assert!(matches!(err, RequestError::IndexIdNotFound { .. }));
    assert_eq!(
        err.to_string(),
        "index id not found for index key vector.store"
    );
}

#[test]
fn searching_is_not_implemented() {
    let mut harness = harness();
    for (search, handle) in [
        (VsIndexSearch::Ann { tx: "ann" }, "ann"),
        (VsIndexSearch::FilteredAnn { tx: "filtered" }, "filtered"),
    ] {
        match harness
            .worker
            .process(TestRequest::Message(Message::Search(search)), true)
        {
            Effect::Reply(Reply::Ann { tx, error }) => {
                assert_eq!(tx, handle);
                assert_eq!(error.to_string(), "cuVS index search is not implemented yet");
            }
            effect => panic!("{effect:?}"),
        }
    }
}

#[test]
fn removing_a_partition_is_not_implemented() {
    let mut harness = harness();
    harness.add_rows(0..3);
    assert!(matches!(
        harness.worker.process(
            TestRequest::Message(Message::Modify(VsIndexModify::RemovePartition)),
            true
        ),
        Effect::NotImplemented
    ));
    assert_eq!(harness.index().pending(), 0);
    assert_eq!(harness.index().rows().ids().len(), 3);
}

#[test]
fn a_worker_without_an_index_answers_every_search() {
    let mut worker: Worker<f32, u64> =
        Worker::start(Dimensions::new(4).unwrap(), Err("no GPU".to_string()));
    assert_eq!(
        worker.start_report(&index_key()),
        Some("unable to create cuVS index for vector.store: no GPU".to_string())
    );
    let count = TestRequest::Message(Message::Search(VsIndexSearch::Count {
        index_key: index_key(),
        tx: "count",
    }));
    match worker.process(count, true) {
        Effect::Reply(Reply::Count { tx: "count", result }) => assert_eq!(
            result.unwrap_err().to_string(),
            "cuVS index is unavailable: no GPU"
        ),
        effect => panic!("{effect:?}"),
    }
    let ann = TestRequest::Message(Message::Search(VsIndexSearch::Ann { tx: "ann" }));
    match worker.process(ann, true) {
        Effect::Reply(Reply::Ann { tx: "ann", error }) => {
            assert_eq!(error.to_string(), "cuVS index is unavailable: no GPU")
        }
        effect => panic!("{effect:?}"),
    }
    let write = TestRequest::Message(Message::Modify(VsIndexModify::RemovePartition));
    assert!(matches!(worker.process(write, true), Effect::Done));
    assert!(matches!(worker.process(TestRequest::Flush, true), Effect::Done));
    assert!(harness().worker.start_report(&index_key()).is_none());
}

#[test]
fn a_worker_takes_what_fits_its_rows() {
    let mut harness = harness();
    let add = |len: usize| -> TestRequest {
        Request::Message(Message::Modify(VsIndexModify::AddVector {
            primary_id: PrimaryId::from(1),
            embedding: vec![0.0; len],
            in_progress: 0,
        }))
    };
    let remove = || -> TestRequest {
        Request::Message(Message::Modify(VsIndexModify::RemoveVector {
            primary_id: PrimaryId::from(1),
            in_progress: 0,
        }))
    };
    assert!(harness.worker.takes(&add(3)));
    harness.add_rows(1..2);
    assert!(harness.worker.takes(&add(4)));
    assert!(!harness.worker.takes(&add(3)));
    assert!(harness.worker.takes(&remove()));
    assert!(harness.worker.takes(&TestRequest::Flush));
    harness.index().add(PrimaryId::from(7), &[0.0], 7);
    assert!(!harness.worker.takes(&remove()));
}

#[test]
fn reject_answers_questions_and_drops_writes() {
    let err = RequestError::SearchNotImplemented;
    let write: TestMessage = Message::Modify(VsIndexModify::RemovePartition);
    assert!(reject(write, err).is_none());

    let err = RequestError::SearchNotImplemented;
    let search: TestMessage = Message::Search(VsIndexSearch::FilteredAnn { tx: "filtered" });
    assert!(matches!(
        reject(search, err),
        Some(Reply::Ann { tx: "filtered", error: RequestError::SearchNotImplemented })
    ));
}

#[test]
fn a_tick_queues_a_flush_only_where_none_is_queued() {
    let mut queued = false;
    let mut flushes = 0;
    for _ in 0..3 {
        let was_queued = std::mem::replace(&mut queued, true);
        let event: LoopEvent<f32, u64, (), ()> = LoopEvent::Tick { was_queued };
        match next_action(event) {
            LoopAction::Forward(Request::Flush) => flushes += 1,
            LoopAction::Wait => {}
            action => panic!("{action:?}"),
        }
    }
    assert_eq!(flushes, 1);
}

#[test]
fn the_loop_forwards_messages_and_ends_with_its_clients() {
    let message: TestMessage = Message::Search(VsIndexSearch::Ann { tx: "ann" });
    assert!(matches!(
        next_action(LoopEvent::Received(Some(message))),
        LoopAction::Forward(Request::Message(Message::Search(VsIndexSearch::Ann { tx: "ann" })))
    ));
    let closed: LoopEvent<f32, u64, (), ()> = LoopEvent::Received(None);
    assert!(matches!(next_action(closed), LoopAction::Stop));
    let gone: LoopEvent<f32, u64, (), ()> = LoopEvent::WorkerGone;
    assert!(matches!(next_action(gone), LoopAction::Stop));
}

#[test]
fn the_worker_thread_is_named_after_its_index() {
    assert_eq!(thread_name(&index_key()), "cuvs-vector.store");
    assert_eq!(
        spawn_error(&index_key(), "no threads left"),
        "unable to spawn cuVS thread for vector.store: no threads left"
    );
}

#[test]
fn a_message_goes_before_a_tick() {
    let mut ready: Ready<f32, u64, &'static str, &'static str> = Ready::new();
    assert!(ready.take().is_none());

    ready.tick = true;
    for handle in ["first", "second"] {
        ready.received = Some(Some(Message::Search(VsIndexSearch::Ann { tx: handle })));
        match ready.take() {
            Some(Taken::Received(Some(Message::Search(VsIndexSearch::Ann { tx })))) => {
                assert_eq!(tx, handle)
            }
            taken => panic!("{taken:?}"),
        }
        assert!(ready.tick);
    }
    assert!(matches!(ready.take(), Some(Taken::Tick)));
    assert!(ready.take().is_none());

    ready.tick = true;
    ready.received = Some(None);
    assert!(matches!(ready.take(), Some(Taken::Received(None))));
}

#[test]
fn only_a_count_asks_the_table() {
    let count = TestRequest::Message(Message::Search(VsIndexSearch::Count {
        index_key: index_key(),
        tx: "count",
    }));
    assert_eq!(count.asks_about().unwrap().as_str(), "vector.store");
    let ann = TestRequest::Message(Message::Search(VsIndexSearch::Ann { tx: "ann" }));
    assert!(ann.asks_about().is_none());
    assert!(TestRequest::Flush.asks_about().is_none());
}
