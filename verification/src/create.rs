//! Creating a secret: from the plaintext to the share link.
//!
//! Like a claim, a creation is a state machine that the caller drives with
//! [`run_create`]: it reads what the actions ask for, uploads what they hand
//! over, and reports what happened as the next event.
//!
//! ```text
//! Idle --Begin--> AwaitingInput --Input--> AwaitingPassphrase --Ready--> Uploading --Uploaded--> Finished
//!        |                                   ^
//!        +------ text given with Begin ------+
//! ```
//!
//! The lifetime is checked before the passphrase is asked for, and nothing
//! is sealed before both are there.

use vstd::prelude::*;
use crate::cipher::{open_spec, seal, seal_spec, sealed_view, SealResult, SealResultView};
use crate::codec::{b64_encode, b64_encode_spec};
use crate::envelope::{from_wire_spec, lemma_read_after_write, wire_spec};
use crate::error::EnvelopeError;
use crate::text::{tidy, tidy_spec, trim_spec, utf8_lossy_spec};
use crate::ttl::{parse_ttl, ttl_spec};
use crate::url::{
    format_share_link, format_share_link_spec, lemma_share_link_round_trip, parse_share_url_spec,
    share_id_spec, KEY_DELIMITER,
};

verus! {

/// Where a creation stands.
#[derive(Clone, Copy, Debug, PartialEq, Eq, Structural)]
pub enum CreatePhase {
    /// Nothing has happened yet.
    Idle,
    /// The plaintext has been asked for.
    AwaitingInput,
    /// The passphrase and the random bytes have been asked for.
    AwaitingPassphrase,
    /// The envelope has been handed over for upload.
    Uploading,
    /// The creation has ended.
    Finished,
}

/// Where the plaintext is read from when it is not given as text.
#[derive(Clone, Copy, Debug, PartialEq, Eq, Structural)]
pub enum InputSource {
    /// From the file that was named.
    File,
    /// From the terminal, one line, without echo.
    HiddenPrompt,
    /// From standard input to its end; `announce` where a human is to be
    /// told how to end it.
    Stream { announce: bool },
}

/// Why a creation ended without a share link.
#[derive(Clone, Copy, Debug, PartialEq, Eq, Structural)]
pub enum CreateFailure {
    /// Both a text and a file were given.
    AmbiguousInput,
    /// The file holds nothing.
    EmptyFile,
    /// The input holds nothing.
    EmptyInput,
    /// The input could not be read.
    InputUnreadable,
    /// Trimming left nothing of the input.
    EmptyAfterTrim,
    /// The lifetime does not parse.
    InvalidTtl,
    /// The passphrase could not be read.
    PassphraseUnreadable,
    /// Sealing failed.
    Encryption { error: EnvelopeError },
    /// The server did not take the envelope.
    UploadRefused,
    /// The event does not answer the action that went before.
    OutOfTurn,
}

/// What the caller configured for one creation.
#[derive(Clone, Debug, PartialEq, Eq)]
pub struct CreateSettings {
    /// The secret, where it was given as text; empty where it was not.
    pub text: Vec<u8>,
    /// Whether a file was named to read the secret from.
    pub file_given: bool,
    /// Whether the secret may span several lines.
    pub multi_line: bool,
    /// Whether a terminal is attached.
    pub interactive: bool,
    /// Whether white space at the ends of the secret is dropped.
    pub trim: bool,
    /// The lifetime as written; empty for the server's default.
    pub ttl: Vec<u8>,
    /// Rounds of passphrase stretching; zero for the default.
    pub kdf_cost: u32,
}

/// What happened outside since the last action.
#[derive(Clone, Debug, PartialEq, Eq)]
pub enum CreateEvent {
    /// The creation starts.
    Begin { settings: CreateSettings },
    /// The plaintext was read.
    Input { bytes: Vec<u8> },
    /// The plaintext could not be read.
    InputUnreadable,
    /// The passphrase, empty for none, and the random bytes are there.
    Ready { passphrase: Vec<u8>, random: Vec<u8> },
    /// The passphrase could not be read.
    PassphraseUnreadable,
    /// The server took the envelope and named the URL of the secret.
    Uploaded { share_url: Vec<u8> },
    /// The server did not take the envelope.
    UploadFailed,
}

/// What the caller is to do next.
#[derive(Clone, Debug, PartialEq, Eq)]
pub enum CreateAction {
    /// Read the plaintext from `source`.
    ReadInput { source: InputSource },
    /// Read the passphrase, and draw `SEAL_RANDOM_LEN` random bytes.
    ReadPassphrase,
    /// Upload the envelope in its wire form, with the claim commitment in
    /// base64url and the lifetime.
    Upload { envelope: Vec<u8>, claim_hash: Vec<u8>, ttl_seconds: Option<u32> },
    /// Hand out the share link; the creation has ended.
    Deliver { share_link: Vec<u8> },
    /// Report the failure; the creation has ended.
    Fail { failure: CreateFailure },
}

/// An action as a mathematical value.
pub enum CreateActionView {
    ReadInput { source: InputSource },
    ReadPassphrase,
    Upload { envelope: Seq<u8>, claim_hash: Seq<u8>, ttl_seconds: Option<u32> },
    Deliver { share_link: Seq<u8> },
    Fail { failure: CreateFailure },
}

impl View for CreateAction {
    type V = CreateActionView;

    open spec fn view(&self) -> CreateActionView {
        match *self {
            CreateAction::ReadInput { source } => CreateActionView::ReadInput { source },
            CreateAction::ReadPassphrase => CreateActionView::ReadPassphrase,
            CreateAction::Upload { envelope, claim_hash, ttl_seconds } => CreateActionView::Upload {
                envelope: envelope@,
                claim_hash: claim_hash@,
                ttl_seconds,
            },
            CreateAction::Deliver { share_link } => CreateActionView::Deliver {
                share_link: share_link@,
            },
            CreateAction::Fail { failure } => CreateActionView::Fail { failure },
        }
    }
}

/// What a creation remembers between events.
#[derive(Clone, Debug, PartialEq, Eq)]
pub struct CreateSession {
    /// Where the creation stands.
    pub phase: CreatePhase,
    /// Where the plaintext was asked from.
    pub source: InputSource,
    /// Whether the plaintext is trimmed.
    pub trim: bool,
    /// The lifetime as written.
    pub ttl: Vec<u8>,
    /// Rounds of passphrase stretching.
    pub kdf_cost: u32,
    /// The plaintext, from its arrival until it is sealed.
    pub plaintext: Vec<u8>,
    /// The lifetime in seconds, where one was given.
    pub ttl_seconds: Option<u32>,
    /// The client key, once the plaintext is sealed.
    pub client_key: Vec<u8>,
}

/// A session as a mathematical value.
pub struct CreateSessionView {
    pub phase: CreatePhase,
    pub source: InputSource,
    pub trim: bool,
    pub ttl: Seq<u8>,
    pub kdf_cost: u32,
    pub plaintext: Seq<u8>,
    pub ttl_seconds: Option<u32>,
    pub client_key: Seq<u8>,
}

impl View for CreateSession {
    type V = CreateSessionView;

    open spec fn view(&self) -> CreateSessionView {
        CreateSessionView {
            phase: self.phase,
            source: self.source,
            trim: self.trim,
            ttl: self.ttl@,
            kdf_cost: self.kdf_cost,
            plaintext: self.plaintext@,
            ttl_seconds: self.ttl_seconds,
            client_key: self.client_key@,
        }
    }
}

/// The session before anything has happened.
pub open spec fn initial_creation() -> CreateSessionView {
    CreateSessionView {
        phase: CreatePhase::Idle,
        source: InputSource::Stream { announce: false },
        trim: false,
        ttl: Seq::empty(),
        kdf_cost: 0,
        plaintext: Seq::empty(),
        ttl_seconds: None,
        client_key: Seq::empty(),
    }
}

/// The creation ends with a failure.
pub open spec fn abandons(s: CreateSessionView, failure: CreateFailure) -> (
    CreateSessionView,
    CreateActionView,
) {
    (CreateSessionView { phase: CreatePhase::Finished, ..s }, CreateActionView::Fail { failure })
}

/// Where the plaintext is read from when no text was given: the named file;
/// else, on a terminal and for one line, the hidden prompt; else standard
/// input, announced where a human types several lines.
pub open spec fn input_source_spec(file_given: bool, interactive: bool, multi_line: bool) -> InputSource {
    if file_given {
        InputSource::File
    } else if interactive && !multi_line {
        InputSource::HiddenPrompt
    } else {
        InputSource::Stream { announce: interactive && multi_line }
    }
}

/// The seconds of a lifetime as written: none for the empty text, and no
/// answer at all where the text does not parse.
pub open spec fn lifetime_spec(ttl: Seq<u8>) -> Option<Option<u32>> {
    if ttl.len() == 0 {
        Some(None)
    } else {
        match ttl_spec(ttl) {
            Some(seconds) => Some(Some(seconds as u32)),
            None => None,
        }
    }
}

/// The plaintext is there: it is trimmed where that was asked for, the
/// lifetime is checked, and the passphrase is asked for.
pub open spec fn accept_spec(s: CreateSessionView, plaintext: Seq<u8>) -> (
    CreateSessionView,
    CreateActionView,
) {
    if s.trim && trim_spec(utf8_lossy_spec(plaintext)).len() == 0 {
        abandons(s, CreateFailure::EmptyAfterTrim)
    } else {
        match lifetime_spec(s.ttl) {
            None => abandons(s, CreateFailure::InvalidTtl),
            Some(ttl_seconds) => (
                CreateSessionView {
                    phase: CreatePhase::AwaitingPassphrase,
                    plaintext: if s.trim {
                        tidy_spec(plaintext)
                    } else {
                        plaintext
                    },
                    ttl_seconds: ttl_seconds,
                    ..s
                },
                CreateActionView::ReadPassphrase,
            ),
        }
    }
}

/// The first step: the source of the plaintext is chosen.
pub open spec fn start_spec(s: CreateSessionView, settings: CreateSettings) -> (
    CreateSessionView,
    CreateActionView,
) {
    let source = input_source_spec(settings.file_given, settings.interactive, settings.multi_line);
    let told = CreateSessionView {
        source: source,
        trim: settings.trim,
        ttl: settings.ttl@,
        kdf_cost: settings.kdf_cost,
        ..s
    };
    if settings.text@.len() > 0 && settings.file_given {
        abandons(s, CreateFailure::AmbiguousInput)
    } else if settings.text@.len() > 0 {
        accept_spec(told, settings.text@)
    } else {
        (
            CreateSessionView { phase: CreatePhase::AwaitingInput, ..told },
            CreateActionView::ReadInput { source },
        )
    }
}

/// The plaintext has been read.
pub open spec fn input_spec(s: CreateSessionView, bytes: Seq<u8>) -> (
    CreateSessionView,
    CreateActionView,
) {
    if bytes.len() == 0 {
        abandons(
            s,
            if s.source == InputSource::File {
                CreateFailure::EmptyFile
            } else {
                CreateFailure::EmptyInput
            },
        )
    } else {
        accept_spec(s, bytes)
    }
}

/// What follows a sealing: the failure, or the upload of the envelope with
/// the commitment and the lifetime. The session keeps the client key and
/// drops the plaintext.
pub open spec fn sealed_outcome(s: CreateSessionView, sealed: Result<SealResultView, EnvelopeError>) -> (
    CreateSessionView,
    CreateActionView,
) {
    match sealed {
        Err(error) => abandons(s, CreateFailure::Encryption { error }),
        Ok(sealed) => if !sealed.envelope.wf() {
            abandons(s, CreateFailure::Encryption { error: EnvelopeError::MalformedEnvelope })
        } else {
            (
                CreateSessionView {
                    phase: CreatePhase::Uploading,
                    plaintext: Seq::empty(),
                    client_key: sealed.client_key,
                    ..s
                },
                CreateActionView::Upload {
                    envelope: wire_spec(sealed.envelope),
                    claim_hash: b64_encode_spec(sealed.claim_commitment),
                    ttl_seconds: s.ttl_seconds,
                },
            )
        },
    }
}

/// The server has taken the envelope: the share link is made.
pub open spec fn uploaded_spec(s: CreateSessionView, share_url: Seq<u8>) -> (
    CreateSessionView,
    CreateActionView,
) {
    (
        CreateSessionView { phase: CreatePhase::Finished, ..s },
        CreateActionView::Deliver { share_link: format_share_link_spec(share_url, s.client_key) },
    )
}

/// One step of a creation: the session and the action that follow from a
/// session and an event.
pub open spec fn create_step(s: CreateSessionView, event: CreateEvent) -> (
    CreateSessionView,
    CreateActionView,
) {
    match (s.phase, event) {
        (CreatePhase::Idle, CreateEvent::Begin { settings }) => start_spec(s, settings),
        (CreatePhase::AwaitingInput, CreateEvent::Input { bytes }) => input_spec(s, bytes@),
        (CreatePhase::AwaitingInput, CreateEvent::InputUnreadable) => abandons(
            s,
            CreateFailure::InputUnreadable,
        ),
        (CreatePhase::AwaitingPassphrase, CreateEvent::Ready { passphrase, random }) => sealed_outcome(
            s,
            seal_spec(s.plaintext, passphrase@, random@, s.kdf_cost),
        ),
        (CreatePhase::AwaitingPassphrase, CreateEvent::PassphraseUnreadable) => abandons(
            s,
            CreateFailure::PassphraseUnreadable,
        ),
        (CreatePhase::Uploading, CreateEvent::Uploaded { share_url }) => uploaded_spec(s, share_url@),
        (CreatePhase::Uploading, CreateEvent::UploadFailed) => abandons(
            s,
            CreateFailure::UploadRefused,
        ),
        _ => abandons(s, CreateFailure::OutOfTurn),
    }
}

/// What is uploaded can be claimed: the uploaded bytes read as an envelope
/// that the session's client key and the passphrase open to the plaintext.
pub open spec fn upload_opens(
    action: CreateActionView,
    client_key: Seq<u8>,
    passphrase: Seq<u8>,
    plaintext: Seq<u8>,
) -> bool {
    action is Upload ==> {
        &&& from_wire_spec(action->Upload_envelope) is Some
        &&& open_spec(from_wire_spec(action->Upload_envelope).unwrap(), client_key, passphrase)
            == Ok::<Seq<u8>, EnvelopeError>(plaintext)
    }
}

/// The link that a creation hands out leads back to the secret: it parses
/// into the id that the server's URL ends in and into the client key that
/// the session kept from the sealing.
pub proof fn lemma_delivered_link_parses(s: CreateSessionView, share_url: Seq<u8>)
    requires
        !share_url.contains(KEY_DELIMITER),
        share_id_spec(share_url) is Some,
    ensures
        uploaded_spec(s, share_url).1 is Deliver,
        parse_share_url_spec(uploaded_spec(s, share_url).1->Deliver_share_link) == Some(
            (share_id_spec(share_url).unwrap(), s.client_key),
        ),
{
    lemma_share_link_round_trip(share_url, s.client_key);
}

impl CreateFailure {
    /// The exit status that a program reports the failure with: 1 where
    /// sealing or the upload failed, 2 where the input was at fault.
    pub fn exit_code(&self) -> (code: i32)
        ensures
            code == if *self is Encryption || *self == CreateFailure::UploadRefused || *self
                == CreateFailure::OutOfTurn {
                1i32
            } else {
                2i32
            },
    {
        match self {
            CreateFailure::Encryption { error } => 1,
            CreateFailure::UploadRefused => 1,
            CreateFailure::OutOfTurn => 1,
            _ => 2,
        }
    }
}

/// Picks where the plaintext is read from when no text was given.
pub fn input_source(file_given: bool, interactive: bool, multi_line: bool) -> (source: InputSource)
    ensures
        source == input_source_spec(file_given, interactive, multi_line),
{
    if file_given {
        InputSource::File
    } else if interactive && !multi_line {
        InputSource::HiddenPrompt
    } else {
        InputSource::Stream { announce: interactive && multi_line }
    }
}

impl CreateSession {
    /// A session before anything has happened.
    pub fn new() -> (session: CreateSession)
        ensures
            session@ == initial_creation(),
    {
        CreateSession {
            phase: CreatePhase::Idle,
            source: InputSource::Stream { announce: false },
            trim: false,
            ttl: Vec::new(),
            kdf_cost: 0,
            plaintext: Vec::new(),
            ttl_seconds: None,
            client_key: Vec::new(),
        }
    }

    /// Ends the creation with a failure.
    fn abandon(&mut self, failure: CreateFailure) -> (action: CreateAction)
        ensures
            (final(self)@, action@) == abandons(old(self)@, failure),
    {
        self.phase = CreatePhase::Finished;
        CreateAction::Fail { failure }
    }

    fn accept(&mut self, plaintext: Vec<u8>) -> (action: CreateAction)
        ensures
            (final(self)@, action@) == accept_spec(old(self)@, plaintext@),
    {
        let kept = if self.trim {
            match tidy(plaintext.as_slice()) {
                Some(tidied) => tidied,
                None => {
                    return self.abandon(CreateFailure::EmptyAfterTrim);
                },
            }
        } else {
            plaintext
        };
        let ttl_seconds = if self.ttl.len() == 0 {
            None
        } else {
            match parse_ttl(self.ttl.as_slice()) {
                Ok(seconds) => Some(seconds),
                Err(_) => {
                    return self.abandon(CreateFailure::InvalidTtl);
                },
            }
        };
        self.plaintext = kept;
        self.ttl_seconds = ttl_seconds;
        self.phase = CreatePhase::AwaitingPassphrase;
        CreateAction::ReadPassphrase
    }

    fn start(&mut self, settings: CreateSettings) -> (action: CreateAction)
        ensures
            (final(self)@, action@) == start_spec(old(self)@, settings),
    {
        if settings.text.len() > 0 && settings.file_given {
            return self.abandon(CreateFailure::AmbiguousInput);
        }
        let source = input_source(settings.file_given, settings.interactive, settings.multi_line);
        self.source = source;
        self.trim = settings.trim;
        self.ttl = settings.ttl;
        self.kdf_cost = settings.kdf_cost;
        if settings.text.len() > 0 {
            self.accept(settings.text)
        } else {
            self.phase = CreatePhase::AwaitingInput;
            CreateAction::ReadInput { source }
        }
    }

    fn input(&mut self, bytes: Vec<u8>) -> (action: CreateAction)
        ensures
            (final(self)@, action@) == input_spec(old(self)@, bytes@),
    {
        if bytes.len() == 0 {
            let failure = match self.source {
                InputSource::File => CreateFailure::EmptyFile,
                _ => CreateFailure::EmptyInput,
            };
            self.abandon(failure)
        } else {
            self.accept(bytes)
        }
    }

    /// Goes on after a sealing: ends the creation where it failed, and hands
    /// the envelope over for upload where it did not.
    pub fn settle_sealed(&mut self, sealed: Result<SealResult, EnvelopeError>) -> (action: CreateAction)
        ensures
            (final(self)@, action@) == sealed_outcome(old(self)@, sealed_view(sealed)),
    {
        let sealed = match sealed {
            Ok(sealed) => sealed,
            Err(error) => {
                return self.abandon(CreateFailure::Encryption { error });
            },
        };
        let envelope = match sealed.envelope.to_bytes() {
            Ok(envelope) => envelope,
            Err(error) => {
                return self.abandon(CreateFailure::Encryption { error });
            },
        };
        let claim_hash = b64_encode(sealed.claim_commitment.as_slice());
        self.client_key = sealed.client_key;
        self.plaintext = Vec::new();
        self.phase = CreatePhase::Uploading;
        CreateAction::Upload { envelope, claim_hash, ttl_seconds: self.ttl_seconds }
    }

    fn ready(&mut self, passphrase: Vec<u8>, random: Vec<u8>) -> (action: CreateAction)
        ensures
            (final(self)@, action@) == sealed_outcome(
                old(self)@,
                seal_spec(old(self)@.plaintext, passphrase@, random@, old(self)@.kdf_cost),
            ),
            upload_opens(action@, final(self)@.client_key, passphrase@, old(self)@.plaintext),
    {
        let sealed = seal(
            self.plaintext.as_slice(),
            passphrase.as_slice(),
            random.as_slice(),
            self.kdf_cost,
        );
        proof {
            if sealed is Ok {
                lemma_read_after_write(sealed.unwrap()@.envelope);
            }
        }
        self.settle_sealed(sealed)
    }

    fn uploaded(&mut self, share_url: Vec<u8>) -> (action: CreateAction)
        ensures
            (final(self)@, action@) == uploaded_spec(old(self)@, share_url@),
    {
        let share_link = format_share_link(share_url.as_slice(), self.client_key.as_slice());
        self.phase = CreatePhase::Finished;
        CreateAction::Deliver { share_link }
    }
}

/// Takes a creation one step further: hands in what happened outside and
/// gets what to do next.
///
/// The first event of a creation is `Begin`; after `Deliver` or `Fail` the
/// creation has ended and every further event is out of turn. Whatever is
/// handed over for upload opens again, with the client key that the session
/// keeps for the share link and with the passphrase that arrived, to the
/// plaintext that the session held.
pub fn run_create(session: &mut CreateSession, event: CreateEvent) -> (action: CreateAction)
    ensures
        (final(session)@, action@) == create_step(old(session)@, event),
        event matches CreateEvent::Ready { passphrase, random } ==> upload_opens(
            action@,
            final(session)@.client_key,
            passphrase@,
            old(session)@.plaintext,
        ),
{
    match session.phase {
        CreatePhase::Idle => match event {
            CreateEvent::Begin { settings } => session.start(settings),
            _ => session.abandon(CreateFailure::OutOfTurn),
        },
        CreatePhase::AwaitingInput => match event {
            CreateEvent::Input { bytes } => session.input(bytes),
            CreateEvent::InputUnreadable => session.abandon(CreateFailure::InputUnreadable),
            _ => session.abandon(CreateFailure::OutOfTurn),
        },
        CreatePhase::AwaitingPassphrase => match event {
            CreateEvent::Ready { passphrase, random } => session.ready(passphrase, random),
            CreateEvent::PassphraseUnreadable => session.abandon(CreateFailure::PassphraseUnreadable),
            _ => session.abandon(CreateFailure::OutOfTurn),
        },
        CreatePhase::Uploading => match event {
            CreateEvent::Uploaded { share_url } => session.uploaded(share_url),
            CreateEvent::UploadFailed => session.abandon(CreateFailure::UploadRefused),
            _ => session.abandon(CreateFailure::OutOfTurn),
        },
        CreatePhase::Finished => session.abandon(CreateFailure::OutOfTurn),
    }
}

} // verus!
