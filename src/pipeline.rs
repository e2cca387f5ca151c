//! One task's pipeline as a state machine: fetch, translate, build and run
//! both variants, classify, archive, answer. The runner performs each
//! [`Step`] and feeds back the [`Event`] it produced.

use vstd::prelude::*;
use vstd::utf8::{decode_utf8, valid_utf8};
use crate::archive::{
    candidate_key, candidate_key_text, transcript_key, transcript_key_text, StorageCategory,
    RETRIEVAL_TTL_SECS,
};
use crate::classify::{
    classify_unvalidated, classify_validated, detect_source_kind, kind_of_key, validated_outcome,
    unvalidated_outcome, ComparisonOutcome, ExecutionResult, SourceKind, VariantOutcome,
};
use crate::translation::{
    amount_pointer, fixture_error_text, fixture_from_record, fixture_outcome, is_success,
    json_string_lookup, read_translation, response_payload, translation_error_text,
    FixtureError,
};
use crate::decimal::int_text;
use crate::text::text_from_utf8;

verus! {

/// Key, in the task's bucket, of the fixture record.
pub open spec fn fixture_key_text() -> Seq<char> {
    "data/loan_data.json"@
}

#[derive(PartialEq, Eq, Structural, Clone, Copy, Debug)]
pub enum Phase {
    FetchingSource,
    FetchingFixture,
    Translating,
    BuildingLegacy,
    RunningLegacy,
    BuildingCandidate,
    RunningCandidate,
    StoringCandidate,
    StoringTranscript,
    PresigningCandidate,
    PresigningTranscript,
    Finished,
}

/// The task's answer.
pub struct TaskReport {
    pub task_id: String,
    pub status_message: String,
    pub matched: bool,
    /// False where the task ended before it could be classified.
    pub classified: bool,
    pub candidate_url: Option<String>,
    pub transcript_url: Option<String>,
}

/// What the runner is asked to do next.
pub enum Step {
    Fetch { bucket: String, key: String },
    Translate { instruction: String, request: String },
    BuildLegacy { source: String },
    RunLegacy { fixture: String },
    BuildCandidate { source: String },
    RunCandidate { fixture: String },
    Store { bucket: String, key: String, content: String },
    Presign { bucket: String, key: String, ttl_secs: u64 },
    Respond(TaskReport),
}

/// What the runner observed.
pub enum Event {
    /// The requested object's bytes.
    ObjectRead(Vec<u8>),
    /// An object-store read or write failed.
    StorageFailed(String),
    /// The translation service answered.
    ServiceAnswered { status: u16, body: String },
    /// The translation service could not be reached, retries included.
    ServiceUnreachable(String),
    Built { success: bool, diagnostic: String },
    Ran { success: bool, stdout: String, output_file: Option<String>, stderr: String },
    Stored,
    /// A retrieval handle, or `None` where none could be made.
    Presigned(Option<String>),
}

pub open spec fn ran_outcome(ev: Event) -> VariantOutcome {
    match ev {
        Event::Ran { success, stdout, output_file, stderr } => if success {
            VariantOutcome::Completed(ExecutionResult { stdout, output_artifact: output_file })
        } else {
            VariantOutcome::RunFailed(stderr)
        },
        _ => arbitrary(),
    }
}

pub struct Pipeline {
    task_id: String,
    bucket: String,
    source_key: String,
    timestamp: i64,
    kind: SourceKind,
    phase: Phase,
    source: String,
    fixture: String,
    candidate: String,
    transcript: String,
    legacy: Option<VariantOutcome>,
    outcome: Option<ComparisonOutcome>,
    candidate_url: Option<String>,
}

/// The fixture input, or the error, that a fixture record gives.
pub open spec fn record_fixture(record: Seq<char>) -> Result<Seq<char>, FixtureError> {
    fixture_outcome(json_string_lookup(record, amount_pointer()))
}

pub open spec fn opt_str(o: Option<String>) -> Option<Seq<char>> {
    match o {
        Some(s) => Some(s@),
        None => None,
    }
}

/// Why a task ends at the service's answer: the status error with its body,
/// or what is wrong with the model's answer.
pub open spec fn answer_failure_text(status: u16, body: Seq<char>) -> Seq<char> {
    if !is_success(status) {
        "API Error "@ + int_text(status as int) + ": "@ + body
    } else {
        match response_payload(body) {
            Err(e) => translation_error_text(e),
            Ok(_) => Seq::empty(),
        }
    }
}

/// Why a task ends at the fixture record.
pub open spec fn fixture_failure_text(b: Seq<u8>) -> Seq<char> {
    if !valid_utf8(b) {
        "Fixture record is not UTF-8 text"@
    } else {
        match record_fixture(decode_utf8(b)) {
            Err(e) => fixture_error_text(e),
            Ok(_) => Seq::empty(),
        }
    }
}

/// The phase that follows `p` on event `ev`, for a task of `kind`.
pub open spec fn next_phase(p: Phase, kind: SourceKind, ev: Event) -> Phase {
    match (p, ev) {
        (Phase::FetchingSource, Event::ObjectRead(b)) => if !valid_utf8(b@) {
            Phase::Finished
        } else if kind == SourceKind::Cobol {
            Phase::FetchingFixture
        } else {
            Phase::Translating
        },
        (Phase::FetchingFixture, Event::ObjectRead(b)) => if valid_utf8(b@) && record_fixture(
            decode_utf8(b@),
        ) is Ok {
            Phase::Translating
        } else {
            Phase::Finished
        },
        (Phase::Translating, Event::ServiceAnswered { status, body }) => if is_success(status) && response_payload(body@) is Ok {
            if kind == SourceKind::Cobol {
                Phase::BuildingLegacy
            } else {
                Phase::BuildingCandidate
            }
        } else {
            Phase::Finished
        },
        (Phase::BuildingLegacy, Event::Built { success, .. }) => if success {
            Phase::RunningLegacy
        } else {
            Phase::BuildingCandidate
        },
        (Phase::RunningLegacy, Event::Ran { .. }) => Phase::BuildingCandidate,
        (Phase::BuildingCandidate, Event::Built { success, .. }) => if success && kind
            == SourceKind::Cobol {
            Phase::RunningCandidate
        } else {
            Phase::StoringCandidate
        },
        (Phase::RunningCandidate, Event::Ran { .. }) => Phase::StoringCandidate,
        (Phase::StoringCandidate, Event::Stored) => Phase::StoringTranscript,
        (Phase::StoringTranscript, Event::Stored) => Phase::PresigningCandidate,
        (Phase::PresigningCandidate, Event::Presigned(_)) => Phase::PresigningTranscript,
        _ => Phase::Finished,
    }
}

impl Pipeline {
    pub closed spec fn task_id_view(&self) -> Seq<char> {
        self.task_id@
    }

    pub closed spec fn bucket_view(&self) -> Seq<char> {
        self.bucket@
    }

    pub closed spec fn timestamp_view(&self) -> int {
        self.timestamp as int
    }

    pub closed spec fn kind_view(&self) -> SourceKind {
        self.kind
    }

    pub closed spec fn phase_view(&self) -> Phase {
        self.phase
    }

    pub closed spec fn source_view(&self) -> Seq<char> {
        self.source@
    }

    pub closed spec fn fixture_view(&self) -> Seq<char> {
        self.fixture@
    }

    pub closed spec fn candidate_view(&self) -> Seq<char> {
        self.candidate@
    }

    pub closed spec fn transcript_view(&self) -> Seq<char> {
        self.transcript@
    }

    pub closed spec fn legacy_view(&self) -> Option<VariantOutcome> {
        self.legacy
    }

    pub closed spec fn outcome_view(&self) -> Option<(bool, Seq<char>, StorageCategory)> {
        match self.outcome {
            Some(o) => Some(o.view_triple()),
            None => None,
        }
    }

    pub closed spec fn category_view(&self) -> StorageCategory {
        match self.outcome {
            Some(o) => o.storage_category,
            None => StorageCategory::Failed,
        }
    }

    /// The retrieval handle of the archived candidate, once asked for.
    pub closed spec fn candidate_url_view(&self) -> Option<Seq<char>> {
        opt_str(self.candidate_url)
    }

    pub closed spec fn wf(&self) -> bool {
        &&& self.kind == kind_of_key(self.source_key@)
        &&& (self.phase == Phase::RunningCandidate ==> self.kind == SourceKind::Cobol)
        &&& (self.kind == SourceKind::Cobol && (self.phase == Phase::BuildingCandidate
            || self.phase == Phase::RunningCandidate) ==> self.legacy is Some)
        &&& (self.phase == Phase::StoringCandidate || self.phase == Phase::StoringTranscript
            || self.phase == Phase::PresigningCandidate || self.phase
            == Phase::PresigningTranscript ==> self.outcome is Some)
        &&& (self.outcome matches Some(o) ==> (o.matched <==> o.storage_category
            == StorageCategory::Validated))
    }

    /// Sets up the pipeline of one task and asks for its source object.
    pub fn start(task_id: String, bucket: String, source_key: String, timestamp: i64) -> (r: (
        Pipeline,
        Step,
    ))
        ensures
            r.0.wf(),
            r.0.phase_view() == Phase::FetchingSource,
            r.0.task_id_view() == task_id@,
            r.0.bucket_view() == bucket@,
            r.0.timestamp_view() == timestamp as int,
            r.0.kind_view() == kind_of_key(source_key@),
            r.0.legacy_view() is None,
            r.0.outcome_view() is None,
            r.0.candidate_url_view() is None,
            r.1 matches Step::Fetch { bucket: b, key: k } && b@ == bucket@ && k@ == source_key@,
    {
        let kind = detect_source_kind(source_key.as_str());
        let step = Step::Fetch { bucket: bucket.clone(), key: source_key.clone() };
        let p = Pipeline {
            task_id,
            bucket,
            source_key,
            timestamp,
            kind,
            phase: Phase::FetchingSource,
            source: String::new(),
            fixture: String::new(),
            candidate: String::new(),
            transcript: String::new(),
            legacy: None,
            outcome: None,
            candidate_url: None,
        };
        (p, step)
    }

    pub fn phase(&self) -> (r: Phase)
        ensures
            r == self.phase_view(),
    {
        self.phase
    }

    /// Ends the task unclassified, with `message`.
    fn abort(&mut self, message: String) -> (r: Step)
        ensures
            *final(self) == (Pipeline { phase: Phase::Finished, ..*old(self) }),
            r matches Step::Respond(rep) && rep.task_id@ == old(self).task_id@ && !rep.classified
                && !rep.matched && rep.status_message@ == message@ && rep.candidate_url is None
                && rep.transcript_url is None,
    {
        self.phase = Phase::Finished;
        Step::Respond(
            TaskReport {
                task_id: self.task_id.clone(),
                status_message: message,
                matched: false,
                classified: false,
                candidate_url: None,
                transcript_url: None,
            },
        )
    }

    fn store_candidate(&mut self, outcome: ComparisonOutcome) -> (r: Step)
        requires
            old(self).kind == kind_of_key(old(self).source_key@),
            outcome.matched <==> outcome.storage_category == StorageCategory::Validated,
        ensures
            *final(self) == (Pipeline {
                phase: Phase::StoringCandidate,
                outcome: Some(outcome),
                ..*old(self)
            }),
            r matches Step::Store { bucket, key, content } && bucket@ == old(self).bucket@
                && key@ == candidate_key_text(
                outcome.storage_category,
                old(self).task_id@,
                old(self).timestamp as int,
            ) && content@ == old(self).candidate@,
    {
        let key = candidate_key(outcome.storage_category, self.task_id.as_str(), self.timestamp);
        self.outcome = Some(outcome);
        self.phase = Phase::StoringCandidate;
        Step::Store { bucket: self.bucket.clone(), key, content: self.candidate.clone() }
    }

    fn translate_step(&mut self) -> (r: Step)
        ensures
            *final(self) == (Pipeline { phase: Phase::Translating, ..*old(self) }),
            r matches Step::Translate { instruction, request } && instruction@
                == crate::translation::instruction_text(old(self).kind.language_view())
                && request@ == crate::translation::request_text(
                old(self).kind.language_view(),
                old(self).source@,
            ),
    {
        self.phase = Phase::Translating;
        Step::Translate {
            instruction: crate::translation::translation_instruction(self.kind),
            request: crate::translation::translation_request(self.kind, self.source.as_str()),
        }
    }

    /// Advances the task by one event and says what to do next.
    #[verifier::rlimit(100)]
    #[verifier::spinoff_prover]
    pub fn step(&mut self, ev: Event) -> (r: Step)
        requires
            old(self).wf(),
        ensures
            final(self).wf(),
            final(self).phase_view() == next_phase(old(self).phase_view(), old(self).kind_view(), ev),
            (r is Respond) == (final(self).phase_view() == Phase::Finished),
            // what never changes
            final(self).task_id_view() == old(self).task_id_view(),
            final(self).bucket_view() == old(self).bucket_view(),
            final(self).timestamp_view() == old(self).timestamp_view(),
            final(self).kind_view() == old(self).kind_view(),
            // the source: set from the fetched object, then kept
            old(self).phase_view() == Phase::FetchingSource && final(self).phase_view()
                != Phase::Finished ==> (ev matches Event::ObjectRead(b) && final(self).source_view()
                == decode_utf8(b@)),
            old(self).phase_view() != Phase::FetchingSource ==> final(self).source_view() == old(self).source_view(),
            // the fixture: converted from the fetched record, then kept
            old(self).phase_view() == Phase::FetchingFixture && final(self).phase_view()
                != Phase::Finished ==> (ev matches Event::ObjectRead(b) && valid_utf8(b@)
                && record_fixture(decode_utf8(b@)) == Ok::<Seq<char>, FixtureError>(
                final(self).fixture_view(),
            )),
            old(self).phase_view() != Phase::FetchingFixture ==> final(self).fixture_view() == old(self).fixture_view(),
            // the candidate program and the transcript: from the service's answer, then kept
            old(self).phase_view() == Phase::Translating && final(self).phase_view()
                != Phase::Finished ==> (ev matches Event::ServiceAnswered { status, body }
                && is_success(status) && response_payload(body@) == Ok::<
                Seq<char>,
                crate::translation::TranslationError,
            >(final(self).candidate_view()) && final(self).transcript_view() == body@),
            old(self).phase_view() != Phase::Translating ==> final(self).candidate_view() == old(self).candidate_view() && final(self).transcript_view() == old(self).transcript_view(),
            // the legacy program's outcome
            old(self).phase_view() == Phase::BuildingLegacy ==> (ev matches Event::Built {
                success,
                diagnostic,
            } ==> final(self).legacy_view() == (if success {
                old(self).legacy_view()
            } else {
                Some(VariantOutcome::BuildFailed(diagnostic))
            })),
            old(self).phase_view() == Phase::RunningLegacy && ev is Ran ==> final(self).legacy_view()
                == Some(ran_outcome(ev)),
            old(self).phase_view() != Phase::BuildingLegacy && old(self).phase_view()
                != Phase::RunningLegacy ==> final(self).legacy_view() == old(self).legacy_view(),
            // the classification, made once the candidate's build or run is in, then kept
            old(self).phase_view() == Phase::BuildingCandidate && final(self).phase_view()
                == Phase::StoringCandidate ==> (ev matches Event::Built { success, diagnostic }
                && final(self).outcome_view() == Some(
                if old(self).kind_view() == SourceKind::Cobol {
                    validated_outcome(
                        old(self).legacy_view()->0,
                        VariantOutcome::BuildFailed(diagnostic),
                    )
                } else {
                    unvalidated_outcome(success, diagnostic@)
                },
            )),
            old(self).phase_view() == Phase::RunningCandidate && final(self).phase_view()
                == Phase::StoringCandidate ==> final(self).outcome_view() == Some(
                validated_outcome(old(self).legacy_view()->0, ran_outcome(ev)),
            ),
            old(self).phase_view() != Phase::BuildingCandidate && old(self).phase_view()
                != Phase::RunningCandidate ==> final(self).outcome_view() == old(self).outcome_view(),
            // the candidate's retrieval handle
            old(self).phase_view() == Phase::PresigningCandidate ==> (ev matches Event::Presigned(
                u,
            ) ==> final(self).candidate_url_view() == opt_str(u)),
            old(self).phase_view() != Phase::PresigningCandidate ==> final(self).candidate_url_view() == old(self).candidate_url_view(),
            // what the runner is asked to do
            final(self).phase_view() == Phase::FetchingFixture ==> (r matches Step::Fetch {
                bucket,
                key,
            } && bucket@ == old(self).bucket_view() && key@ == fixture_key_text()),
            r matches Step::BuildLegacy { source } ==> source@ == final(self).source_view(),
            r matches Step::BuildCandidate { source } ==> source@ == final(self).candidate_view(),
            r matches Step::RunLegacy { fixture } ==> fixture@ == final(self).fixture_view(),
            r matches Step::RunCandidate { fixture } ==> fixture@ == final(self).fixture_view(),
            final(self).phase_view() == Phase::StoringCandidate ==> (r matches Step::Store {
                bucket,
                key,
                content,
            } && bucket@ == old(self).bucket_view() && key@ == candidate_key_text(
                final(self).category_view(),
                old(self).task_id_view(),
                old(self).timestamp_view(),
            ) && content@ == final(self).candidate_view()),
            final(self).phase_view() == Phase::StoringTranscript ==> (r matches Step::Store {
                bucket,
                key,
                content,
            } && bucket@ == old(self).bucket_view() && key@ == transcript_key_text(
                old(self).task_id_view(),
                old(self).timestamp_view(),
            ) && content@ == final(self).transcript_view()),
            final(self).phase_view() == Phase::PresigningCandidate ==> (r matches Step::Presign {
                bucket,
                key,
                ttl_secs,
            } && bucket@ == old(self).bucket_view() && key@ == candidate_key_text(
                final(self).category_view(),
                old(self).task_id_view(),
                old(self).timestamp_view(),
            ) && ttl_secs == RETRIEVAL_TTL_SECS),
            final(self).phase_view() == Phase::PresigningTranscript ==> (r matches Step::Presign {
                bucket,
                key,
                ttl_secs,
            } && bucket@ == old(self).bucket_view() && key@ == transcript_key_text(
                old(self).task_id_view(),
                old(self).timestamp_view(),
            ) && ttl_secs == RETRIEVAL_TTL_SECS),
            // every answer carries the task id
            r matches Step::Respond(rep) ==> rep.task_id@ == old(self).task_id_view(),
            // the final answer carries the classification and the handles
            old(self).phase_view() == Phase::PresigningTranscript ==> (ev matches Event::Presigned(
                u,
            ) ==> (r matches Step::Respond(rep) && rep.classified && old(self).outcome_view()
                == Some((rep.matched, rep.status_message@, old(self).category_view()))
                && (rep.matched <==> old(self).category_view() == StorageCategory::Validated)
                && opt_str(rep.candidate_url) == old(self).candidate_url_view() && opt_str(
                rep.transcript_url,
            ) == opt_str(u))),
            // any other answer ends the task unclassified, with the reason
            !(old(self).phase_view() == Phase::PresigningTranscript && ev is Presigned) ==> (
            r matches Step::Respond(rep) ==> !rep.classified && !rep.matched && rep.candidate_url
                is None && rep.transcript_url is None),
            (old(self).phase_view() == Phase::FetchingSource || old(self).phase_view()
                == Phase::FetchingFixture || old(self).phase_view() == Phase::StoringCandidate || old(self).phase_view() == Phase::StoringTranscript) ==> (ev matches Event::StorageFailed(m)
                ==> (r matches Step::Respond(rep) && rep.status_message@
                == "Object storage access failed: "@ + m@)),
            old(self).phase_view() == Phase::FetchingSource && final(self).phase_view()
                == Phase::Finished ==> (ev is ObjectRead ==> (r matches Step::Respond(rep)
                && rep.status_message@ == "Source object is not UTF-8 text"@)),
            old(self).phase_view() == Phase::FetchingFixture && final(self).phase_view()
                == Phase::Finished ==> (ev matches Event::ObjectRead(b) ==> (r matches Step::Respond(
                rep,
            ) && rep.status_message@ == fixture_failure_text(b@))),
            old(self).phase_view() == Phase::Translating && final(self).phase_view()
                == Phase::Finished ==> (ev matches Event::ServiceAnswered { status, body } ==> (
            r matches Step::Respond(rep) && rep.status_message@ == answer_failure_text(
                status,
                body@,
            ))),
            old(self).phase_view() == Phase::Translating ==> (ev matches Event::ServiceUnreachable(
                m,
            ) ==> (r matches Step::Respond(rep) && rep.status_message@
                == "Translation service unreachable: "@ + m@)),
    {
        match (self.phase, ev) {
            (Phase::FetchingSource, Event::ObjectRead(b)) => {
                match text_from_utf8(b) {
                    None => self.abort(String::from_str("Source object is not UTF-8 text")),
                    Some(s) => {
                        self.source = s;
                        if self.kind.requires_validation() {
                            self.phase = Phase::FetchingFixture;
                            Step::Fetch {
                                bucket: self.bucket.clone(),
                                key: String::from_str("data/loan_data.json"),
                            }
                        } else {
                            self.translate_step()
                        }
                    },
                }
            },
            (Phase::FetchingFixture, Event::ObjectRead(b)) => {
                match text_from_utf8(b) {
                    None => self.abort(String::from_str("Fixture record is not UTF-8 text")),
                    Some(rec) => match fixture_from_record(rec.as_str()) {
                        Err(e) => self.abort(e.message()),
                        Ok(f) => {
                            self.fixture = f;
                            self.translate_step()
                        },
                    },
                }
            },
            (Phase::Translating, Event::ServiceAnswered { status, body }) => {
                match read_translation(status, body) {
                    Err(e) => self.abort(e.message()),
                    Ok(t) => {
                        self.candidate = t.candidate_source;
                        self.transcript = t.raw_transcript;
                        if self.kind.requires_validation() {
                            self.phase = Phase::BuildingLegacy;
                            Step::BuildLegacy { source: self.source.clone() }
                        } else {
                            self.phase = Phase::BuildingCandidate;
                            Step::BuildCandidate { source: self.candidate.clone() }
                        }
                    },
                }
            },
            (Phase::BuildingLegacy, Event::Built { success, diagnostic }) => {
                if success {
                    self.phase = Phase::RunningLegacy;
                    Step::RunLegacy { fixture: self.fixture.clone() }
                } else {
                    self.legacy = Some(VariantOutcome::BuildFailed(diagnostic));
                    self.phase = Phase::BuildingCandidate;
                    Step::BuildCandidate { source: self.candidate.clone() }
                }
            },
            (Phase::RunningLegacy, Event::Ran { success, stdout, output_file, stderr }) => {
                self.legacy = Some(run_result(success, stdout, output_file, stderr));
                self.phase = Phase::BuildingCandidate;
                Step::BuildCandidate { source: self.candidate.clone() }
            },
            (Phase::BuildingCandidate, Event::Built { success, diagnostic }) => {
                if !self.kind.requires_validation() {
                    let o = classify_unvalidated(success, diagnostic.as_str());
                    self.store_candidate(o)
                } else if success {
                    self.phase = Phase::RunningCandidate;
                    Step::RunCandidate { fixture: self.fixture.clone() }
                } else {
                    let o = match &self.legacy {
                        Some(l) => classify_validated(l, &VariantOutcome::BuildFailed(diagnostic)),
                        None => classify_unvalidated(false, diagnostic.as_str()),
                    };
                    self.store_candidate(o)
                }
            },
            (Phase::RunningCandidate, Event::Ran { success, stdout, output_file, stderr }) => {
                let c = run_result(success, stdout, output_file, stderr);
                let o = match &self.legacy {
                    Some(l) => classify_validated(l, &c),
                    None => classify_unvalidated(true, ""),
                };
                self.store_candidate(o)
            },
            (Phase::StoringCandidate, Event::Stored) => {
                self.phase = Phase::StoringTranscript;
                Step::Store {
                    bucket: self.bucket.clone(),
                    key: transcript_key(self.task_id.as_str(), self.timestamp),
                    content: self.transcript.clone(),
                }
            },
            (Phase::StoringTranscript, Event::Stored) => {
                self.phase = Phase::PresigningCandidate;
                let cat = match &self.outcome {
                    Some(o) => o.storage_category,
                    None => StorageCategory::Failed,
                };
                Step::Presign {
                    bucket: self.bucket.clone(),
                    key: candidate_key(cat, self.task_id.as_str(), self.timestamp),
                    ttl_secs: RETRIEVAL_TTL_SECS,
                }
            },
            (Phase::PresigningCandidate, Event::Presigned(url)) => {
                self.candidate_url = url;
                self.phase = Phase::PresigningTranscript;
                Step::Presign {
                    bucket: self.bucket.clone(),
                    key: transcript_key(self.task_id.as_str(), self.timestamp),
                    ttl_secs: RETRIEVAL_TTL_SECS,
                }
            },
            (Phase::PresigningTranscript, Event::Presigned(url)) => {
                self.phase = Phase::Finished;
                let candidate_url = match &self.candidate_url {
                    Some(u) => Some(u.clone()),
                    None => None,
                };
                match &self.outcome {
                    Some(o) => Step::Respond(
                        TaskReport {
                            task_id: self.task_id.clone(),
                            status_message: o.status_message.clone(),
                            matched: o.matched,
                            classified: true,
                            candidate_url,
                            transcript_url: url,
                        },
                    ),
                    None => self.abort(String::from_str("Task ended without a classification")),
                }
            },
            (Phase::FetchingSource, Event::StorageFailed(m)) | (
                Phase::FetchingFixture,
                Event::StorageFailed(m),
            ) | (Phase::StoringCandidate, Event::StorageFailed(m)) | (
                Phase::StoringTranscript,
                Event::StorageFailed(m),
            ) => {
                let mut msg = String::from_str("Object storage access failed: ");
                msg.append(m.as_str());
                self.abort(msg)
            },
            (Phase::Translating, Event::ServiceUnreachable(m)) => {
                let mut msg = String::from_str("Translation service unreachable: ");
                msg.append(m.as_str());
                self.abort(msg)
            },
            _ => self.abort(String::from_str("Event does not fit the task's current stage")),
        }
    }
}

fn run_result(success: bool, stdout: String, output_file: Option<String>, stderr: String) -> (r:
    VariantOutcome)
    ensures
        r == ran_outcome(Event::Ran { success, stdout, output_file, stderr }),
{
    if success {
        VariantOutcome::Completed(ExecutionResult { stdout, output_artifact: output_file })
    } else {
        VariantOutcome::RunFailed(stderr)
    }
}

} // verus!
