//! The task engine: a state machine that drives one `perform_task`
//! invocation.
//!
//! The engine owns every decision; the unverified harness only performs
//! the network transfers.  Starting a task yields the first action; each
//! network outcome is handed back as an event and yields the next action.
//! Attachments are uploaded one at a time, in task order; when every
//! attempted upload has failed the task fails before any rich request is
//! sent; a rich request refused with the documented incompatibility
//! signature is retried exactly once against the substitute model.

#![verifier::loop_isolation(false)]

use vstd::prelude::*;

use crate::attachments::{plan_uploads, planned_upload, upload_eligible, UploadRequest, UploadedAttachment};
use crate::chat::{build_chat_request, chat_text_of, extract_chat_text, is_chat_request_of, ChatRequest, ChatResponse};
use crate::error::Error;
use crate::image::{
    build_image_request, image_output, image_params_acceptable, is_image_rejection,
    is_image_request_of, ImageRequest, ImageResponse, ImageResult,
};
use crate::model::OpenAIModel;
use crate::responses::{
    build_responses_request, extract_output_text, extracted_text, is_responses_request_of,
    is_splice, lemma_retry_has_substitute, map_to_vision_model, retry_signature,
    should_retry_with_vision, splice_uploads, vision_substitute, ResponsesRequest,
    ResponsesResponse,
};
use crate::schema::{ModelOutput, ModelTask, ModelTaskKind, OutputKind};

verus! {

/// What the harness must do next.
///
/// For `Upload`, `SendChat`, `SendResponses` and `SendImage` the request
/// to transfer is read from the engine's phase; the harness then hands
/// the outcome back through [`Engine::on_event`].
pub enum Action {
    /// Perform the multipart upload the phase points at.
    Upload,
    /// Send the chat-completion request held by the phase.
    SendChat,
    /// Send the responses-API request held by the phase.
    SendResponses,
    /// Send the image-generation request held by the phase.
    SendImage,
    /// The task is done; nothing was or will be transferred for it.
    Finish(ModelOutput),
    /// The task failed; nothing more will be transferred for it.
    Fail(Error),
}

/// A non-success answer from the provider: the status code and the raw
/// body, which the fallback signature is matched against.
pub struct HttpFailure {
    pub status: u16,
    pub body: String,
}

/// A network outcome the harness hands back.
pub enum Event {
    /// The pending upload finished: the provider's file identifier, or
    /// nothing when the upload failed in transfer or was refused.
    UploadDone(Option<String>),
    /// The responses-API request finished.
    ResponsesDone(Result<ResponsesResponse, HttpFailure>),
    /// The chat-completion request finished; a failure carries the
    /// transport detail.
    ChatDone(Result<ChatResponse, String>),
    /// The image-generation request finished.
    ImageDone(Result<ImageResponse, String>),
}

/// Where one task invocation stands.
pub enum Phase {
    /// Uploading attachments, one at a time: `pending[next]` is in
    /// flight; `base` is the translated request the uploads are spliced
    /// into afterwards.
    Uploading {
        pending: Vec<UploadRequest>,
        next: usize,
        uploaded: Vec<UploadedAttachment>,
        base: ResponsesRequest,
    },
    /// The rich request is in flight; `retried` marks the one
    /// capability-fallback retry as used.
    AwaitingResponses { request: ResponsesRequest, retried: bool },
    /// The chat-completion request is in flight.
    AwaitingChat { request: ChatRequest },
    /// The image-generation request is in flight.
    AwaitingImage { request: ImageRequest },
    /// The task is settled; no event is expected.
    Finished,
}

/// The engine of one task invocation.
pub struct Engine {
    pub phase: Phase,
}

/// Whether a task carries at least one attachment.
pub open spec fn has_attachments(task: ModelTask) -> bool {
    task.attachments matches Some(a) && a@.len() > 0
}

/// Whether a model declares a non-text input capability.
pub open spec fn model_takes_attachments(m: OpenAIModel) -> bool {
    m.inputs@.contains(crate::model::ModelIO::Image) || m.inputs@.contains(
        crate::model::ModelIO::Audio,
    ) || m.inputs@.contains(crate::model::ModelIO::Video)
}

/// Whether an action asks the harness to touch the network.
pub open spec fn is_network_action(a: Action) -> bool {
    a is Upload || a is SendChat || a is SendResponses || a is SendImage
}

/// The empty output a dry run settles with.
pub open spec fn is_empty_output(o: ModelOutput) -> bool {
    o.kind == OutputKind::Text && o.media_type is None && o.content@ == Seq::<char>::empty()
}

/// Whether `phase` expects `event`.
pub open spec fn expects(phase: Phase, event: Event) -> bool {
    match (phase, event) {
        (Phase::Uploading { pending, next, .. }, Event::UploadDone(_)) => next < pending@.len(),
        (Phase::AwaitingResponses { .. }, Event::ResponsesDone(_)) => true,
        (Phase::AwaitingChat { .. }, Event::ChatDone(_)) => true,
        (Phase::AwaitingImage { .. }, Event::ImageDone(_)) => true,
        _ => false,
    }
}

/// The planned uploads of a task's attachments.
pub open spec fn spec_planned(task: ModelTask) -> Seq<crate::schema::InstructionAttachment> {
    (task.attachments->Some_0)@.filter(|a: crate::schema::InstructionAttachment| planned_upload(a))
}

/// Some attachment of the task is eligible for upload.
pub open spec fn any_eligible(task: ModelTask) -> bool {
    exists|i: int|
        0 <= i < (task.attachments->Some_0)@.len() && upload_eligible(
            #[trigger] (task.attachments->Some_0)@[i],
        )
}

impl OpenAIModel {
    /// Starts one task invocation: inspects the task kind and attachment
    /// presence, builds and validates the request shape, and returns the
    /// engine together with the first action.  A dry run never yields a
    /// network action; a task the model cannot take, or a generation
    /// attempted without a credential, fails before any transfer.
    pub fn perform_task(&self, task: &ModelTask, has_credential: bool) -> (r: (Engine, Action))
        ensures
            task.dry_run ==> !is_network_action(r.1) && r.0.phase is Finished,
            task.kind == ModelTaskKind::MessageGeneration && has_attachments(*task)
                && !model_takes_attachments(*self) ==> (r.1 matches Action::Fail(e) && (
            e matches Error::UnsupportedAttachments { model_id } && model_id@ == "openai/"@
                + self.model@)),
            task.kind == ModelTaskKind::MessageGeneration && has_attachments(*task)
                && model_takes_attachments(*self) && task.dry_run ==> (r.1
                matches Action::Finish(o) && is_empty_output(o)),
            task.kind == ModelTaskKind::MessageGeneration && has_attachments(*task)
                && model_takes_attachments(*self) && !task.dry_run && !has_credential ==> (r.1
                matches Action::Fail(e) && e is MissingCredential),
            task.kind == ModelTaskKind::MessageGeneration && has_attachments(*task)
                && model_takes_attachments(*self) && !task.dry_run && has_credential ==> {
                if spec_planned(*task).len() > 0 {
                    &&& r.1 is Upload
                    &&& r.0.phase matches Phase::Uploading { pending, next, uploaded, base }
                    &&& next == 0
                    &&& uploaded@.len() == 0
                    &&& pending@.len() == spec_planned(*task).len()
                    &&& forall|k: int|
                        0 <= k < pending@.len() ==> crate::attachments::is_upload_of(
                            spec_planned(*task)[k],
                            #[trigger] pending@[k],
                        )
                    &&& is_responses_request_of(*self, *task, base)
                } else if any_eligible(*task) {
                    r.1 matches Action::Fail(e) && e is NoUploadsSucceeded && r.0.phase
                        is Finished
                } else {
                    &&& r.1 is SendResponses
                    &&& r.0.phase matches Phase::AwaitingResponses { request, retried }
                    &&& !retried
                    &&& is_responses_request_of(*self, *task, request)
                }
            },
            task.kind == ModelTaskKind::MessageGeneration && !has_attachments(*task)
                && task.dry_run ==> (r.1 matches Action::Finish(o) && is_empty_output(o)),
            task.kind == ModelTaskKind::MessageGeneration && !has_attachments(*task)
                && !task.dry_run && !has_credential ==> (r.1 matches Action::Fail(e) && e
                is MissingCredential),
            task.kind == ModelTaskKind::MessageGeneration && !has_attachments(*task)
                && !task.dry_run && has_credential ==> (r.1 is SendChat && (
            r.0.phase matches Phase::AwaitingChat { request } && is_chat_request_of(
                *self,
                *task,
                request,
            ))),
            task.kind == ModelTaskKind::ImageGeneration && !image_params_acceptable(*task) ==> (r.1
                matches Action::Fail(e) && is_image_rejection(*task, e)),
            task.kind == ModelTaskKind::ImageGeneration && image_params_acceptable(*task)
                && task.dry_run ==> (r.1 matches Action::Finish(o) && is_empty_output(o)),
            task.kind == ModelTaskKind::ImageGeneration && image_params_acceptable(*task)
                && !task.dry_run && !has_credential ==> (r.1 matches Action::Fail(e) && e
                is MissingCredential),
            task.kind == ModelTaskKind::ImageGeneration && image_params_acceptable(*task)
                && !task.dry_run && has_credential ==> (r.1 is SendImage && (
            r.0.phase matches Phase::AwaitingImage { request } && is_image_request_of(
                *task,
                request,
            ))),
            !(r.1 is Finish || r.1 is Fail) <==> !(r.0.phase is Finished),
    {
        match task.kind {
            ModelTaskKind::MessageGeneration => {
                match &task.attachments {
                    Some(attachments) if attachments.len() > 0 => {
                        if !self.supports_attachments() {
                            return (
                                Engine { phase: Phase::Finished },
                                Action::Fail(Error::UnsupportedAttachments { model_id: self.id() }),
                            );
                        }
                        if task.dry_run {
                            return (Engine { phase: Phase::Finished }, Action::Finish(ModelOutput::empty()));
                        }
                        if !has_credential {
                            return (Engine { phase: Phase::Finished }, Action::Fail(Error::MissingCredential));
                        }
                        let (pending, attempted) = plan_uploads(attachments);
                        let base = build_responses_request(self, task);
                        if pending.len() > 0 {
                            return (
                                Engine {
                                    phase: Phase::Uploading {
                                        pending,
                                        next: 0,
                                        uploaded: Vec::new(),
                                        base,
                                    },
                                },
                                Action::Upload,
                            );
                        }
                        if attempted {
                            return (
                                Engine { phase: Phase::Finished },
                                Action::Fail(Error::NoUploadsSucceeded),
                            );
                        }
                        (
                            Engine { phase: Phase::AwaitingResponses { request: base, retried: false } },
                            Action::SendResponses,
                        )
                    },
                    _ => {
                        let request = build_chat_request(self, task);
                        if task.dry_run {
                            return (
                                Engine { phase: Phase::Finished },
                                Action::Finish(ModelOutput::empty()),
                            );
                        }
                        if !has_credential {
                            return (
                                Engine { phase: Phase::Finished },
                                Action::Fail(Error::MissingCredential),
                            );
                        }
                        (Engine { phase: Phase::AwaitingChat { request } }, Action::SendChat)
                    },
                }
            },
            ModelTaskKind::ImageGeneration => {
                let request = match build_image_request(task) {
                    Ok(r) => r,
                    Err(e) => {
                        return (Engine { phase: Phase::Finished }, Action::Fail(e));
                    },
                };
                if task.dry_run {
                    return (Engine { phase: Phase::Finished }, Action::Finish(ModelOutput::empty()));
                }
                if !has_credential {
                    return (Engine { phase: Phase::Finished }, Action::Fail(Error::MissingCredential));
                }
                (Engine { phase: Phase::AwaitingImage { request } }, Action::SendImage)
            },
        }
    }
}

impl Engine {
    /// Feeds one network outcome back and yields the next action.
    pub fn on_event(&mut self, event: Event) -> (r: Action)
        requires
            expects(old(self).phase, event),
        ensures
            !(r is Finish || r is Fail) <==> !(final(self).phase is Finished),
            old(self).phase matches Phase::Uploading { pending, next, uploaded, base } ==> event
                matches Event::UploadDone(outcome) ==> {
                let ups = match outcome {
                    Some(id) => uploaded@.push(
                        UploadedAttachment {
                            alias: pending@[next as int].alias,
                            file_id: id,
                            media_type: pending@[next as int].media_type,
                        },
                    ),
                    None => uploaded@,
                };
                if next + 1 < pending@.len() {
                    &&& r is Upload
                    &&& final(self).phase matches Phase::Uploading {
                        pending: p2,
                        next: n2,
                        uploaded: u2,
                        base: b2,
                    }
                    &&& p2@ == pending@
                    &&& n2 == next + 1
                    &&& u2@ =~= ups
                    &&& b2 == base
                } else if ups.len() == 0 {
                    r matches Action::Fail(e) && e is NoUploadsSucceeded
                } else {
                    &&& r is SendResponses
                    &&& final(self).phase matches Phase::AwaitingResponses { request, retried }
                    &&& !retried
                    &&& request.model == base.model
                    &&& request.temperature == base.temperature
                    &&& request.top_p == base.top_p
                    &&& request.stop == base.stop
                    &&& request.seed == base.seed
                    &&& request.max_output_tokens == base.max_output_tokens
                    &&& is_splice(base.input@, ups, request.input@)
                }
            },
            old(self).phase matches Phase::AwaitingResponses { request, retried } ==> event
                matches Event::ResponsesDone(outcome) ==> match outcome {
                Ok(response) => {
                    if extracted_text(response.output@).len() == 0 {
                        r matches Action::Fail(e) && e is EmptyOutputText
                    } else {
                        r matches Action::Finish(o) && o.kind == OutputKind::Text && o.media_type
                            is None && o.content@ == extracted_text(response.output@)
                    }
                },
                Err(failure) => {
                    if !retried && retry_signature(request.model@, failure.body@) {
                        &&& r is SendResponses
                        &&& final(self).phase matches Phase::AwaitingResponses {
                            request: r2,
                            retried: retried2,
                        }
                        &&& retried2
                        &&& Some(r2.model@) == vision_substitute(request.model@)
                        &&& r2.input == request.input
                        &&& r2.temperature == request.temperature
                        &&& r2.top_p == request.top_p
                        &&& r2.stop == request.stop
                        &&& r2.seed == request.seed
                        &&& r2.max_output_tokens == request.max_output_tokens
                    } else if retried {
                        r matches Action::Fail(e) && (e matches Error::ProviderAfterRetry {
                            status,
                            body,
                        } && status == failure.status && body == failure.body)
                    } else {
                        r matches Action::Fail(e) && (e matches Error::Provider { status, body }
                            && status == failure.status && body == failure.body)
                    }
                },
            },
            old(self).phase matches Phase::AwaitingChat { request } ==> event
                matches Event::ChatDone(outcome) ==> match outcome {
                Ok(response) => r matches Action::Finish(o) && o.kind == OutputKind::Text
                    && o.media_type is None && o.content@ == chat_text_of(response),
                Err(detail) => r matches Action::Fail(e) && (e matches Error::RequestFailed {
                    detail: d,
                } && d == detail),
            },
            old(self).phase matches Phase::AwaitingImage { request } ==> event
                matches Event::ImageDone(outcome) ==> match outcome {
                Ok(response) => {
                    if response.data@.len() == 0 {
                        r matches Action::Fail(e) && e is EmptyImageData
                    } else {
                        match response.data@[0] {
                            ImageResult::Url { url } => r matches Action::Finish(o) && o.kind
                                == OutputKind::Url && (o.media_type matches Some(m) && m@
                                == "image/png"@) && o.content@ == url@,
                            ImageResult::Inline { .. } => r matches Action::Fail(e) && e
                                is UnexpectedImageType,
                        }
                    }
                },
                Err(detail) => r matches Action::Fail(e) && (e matches Error::RequestFailed {
                    detail: d,
                } && d == detail),
            },
    {
        let mut phase = Phase::Finished;
        core::mem::swap(&mut phase, &mut self.phase);
        match phase {
            Phase::Uploading { pending, mut next, mut uploaded, mut base } => {
                let pending_len = pending.len();
                match event {
                    Event::UploadDone(outcome) => {
                        match outcome {
                            Some(id) => {
                                uploaded.push(
                                    UploadedAttachment {
                                        alias: pending[next].alias.clone(),
                                        file_id: id,
                                        media_type: pending[next].media_type.clone(),
                                    },
                                );
                            },
                            None => {
                                // A failed upload narrows the splice; whether it
                                // dooms the task is decided when uploads are done.
                            },
                        }
                        next = next + 1;
                        if next < pending_len {
                            self.phase = Phase::Uploading { pending, next, uploaded, base };
                            Action::Upload
                        } else if uploaded.len() == 0 {
                            self.phase = Phase::Finished;
                            Action::Fail(Error::NoUploadsSucceeded)
                        } else {
                            splice_uploads(&mut base.input, &uploaded);
                            self.phase = Phase::AwaitingResponses { request: base, retried: false };
                            Action::SendResponses
                        }
                    },
                    _ => {
                        proof {
                            assert(false);
                        }
                        Action::Fail(Error::NoUploadsSucceeded)
                    },
                }
            },
            Phase::AwaitingResponses { mut request, retried } => {
                match event {
                    Event::ResponsesDone(outcome) => {
                        match outcome {
                            Ok(response) => {
                                let text = extract_output_text(&response);
                                self.phase = Phase::Finished;
                                if text.as_str().unicode_len() == 0 {
                                    Action::Fail(Error::EmptyOutputText)
                                } else {
                                    Action::Finish(ModelOutput::from_text(text))
                                }
                            },
                            Err(failure) => {
                                if !retried && should_retry_with_vision(
                                    request.model.as_str(),
                                    failure.body.as_str(),
                                ) {
                                    match map_to_vision_model(request.model.as_str()) {
                                        Some(substitute) => {
                                            request.model = substitute;
                                            self.phase = Phase::AwaitingResponses {
                                                request,
                                                retried: true,
                                            };
                                            Action::SendResponses
                                        },
                                        None => {
                                            proof {
                                                lemma_retry_has_substitute(
                                                    request.model@,
                                                    failure.body@,
                                                );
                                            }
                                            self.phase = Phase::Finished;
                                            Action::Fail(
                                                Error::Provider {
                                                    status: failure.status,
                                                    body: failure.body,
                                                },
                                            )
                                        },
                                    }
                                } else if retried {
                                    self.phase = Phase::Finished;
                                    Action::Fail(
                                        Error::ProviderAfterRetry {
                                            status: failure.status,
                                            body: failure.body,
                                        },
                                    )
                                } else {
                                    self.phase = Phase::Finished;
                                    Action::Fail(
                                        Error::Provider { status: failure.status, body: failure.body },
                                    )
                                }
                            },
                        }
                    },
                    _ => {
                        proof {
                            assert(false);
                        }
                        Action::Fail(Error::EmptyOutputText)
                    },
                }
            },
            Phase::AwaitingChat { request } => {
                match event {
                    Event::ChatDone(outcome) => {
                        self.phase = Phase::Finished;
                        match outcome {
                            Ok(response) => {
                                let text = extract_chat_text(&response);
                                Action::Finish(ModelOutput::from_text(text))
                            },
                            Err(detail) => Action::Fail(Error::RequestFailed { detail }),
                        }
                    },
                    _ => {
                        proof {
                            assert(false);
                        }
                        Action::Fail(Error::EmptyOutputText)
                    },
                }
            },
            Phase::AwaitingImage { request } => {
                match event {
                    Event::ImageDone(outcome) => {
                        self.phase = Phase::Finished;
                        match outcome {
                            Ok(response) => match image_output(&response) {
                                Ok(output) => Action::Finish(output),
                                Err(e) => Action::Fail(e),
                            },
                            Err(detail) => Action::Fail(Error::RequestFailed { detail }),
                        }
                    },
                    _ => {
                        proof {
                            assert(false);
                        }
                        Action::Fail(Error::EmptyOutputText)
                    },
                }
            },
            Phase::Finished => {
                proof {
                    assert(false);
                }
                Action::Fail(Error::EmptyOutputText)
            },
        }
    }
}

} // verus!
