//! Claiming a secret: from the share link to the plaintext.
//!
//! The claim is a state machine. The caller owns the network and the
//! terminal: it hands each event to [`run_claim`], performs the action that
//! comes back, and reports what happened as the next event.
//!
//! ```text
//! Idle --Begin--> Fetching --Fetched--> AwaitingPassphrase --Passphrase--> Prompting
//!                     |                                                      ^   |
//!                     +----------------- no candidate matched ---------------+   +-- wrong passphrase
//! ```
//!
//! With an explicitly sourced passphrase only that passphrase is used; it is
//! asked for again only where it came from the prompt, a terminal is
//! attached and the envelope requires a passphrase. Without one, the empty
//! passphrase is tried on an envelope that requires none, then the
//! configured candidates in order, and only then, on a terminal, the prompt.
//! A failed decryption is the only error that is ever answered with another
//! attempt.

use vstd::prelude::*;
use crate::bytes::copy_bytes;
use crate::cipher::{open, open_spec, result_view};
use crate::envelope::{from_wire_spec, lemma_write_after_read, Envelope, EnvelopeView};
use crate::error::EnvelopeError;
use crate::resolver::{
    candidate_list, candidates_spec, configured_spec, fails_to_decrypt, lemma_first_decisive,
    texts, trial_spec, try_candidates, Trial, TrialView,
};
use crate::token::{claim_token_spec, derive_claim_token, KEY_LEN};
use crate::url::{parse_share_url, parse_share_url_spec, share_origin, share_origin_spec};

verus! {

/// Where a claim stands.
#[derive(Clone, Copy, Debug, PartialEq, Eq, Structural)]
pub enum ClaimPhase {
    /// Nothing has happened yet.
    Idle,
    /// The envelope has been asked for.
    Fetching,
    /// The explicitly sourced passphrase has been asked for.
    AwaitingPassphrase,
    /// The human at the terminal has been asked for a passphrase.
    Prompting,
    /// The claim has ended.
    Finished,
}

/// Where the passphrase comes from.
#[derive(Clone, Copy, Debug, PartialEq, Eq, Structural)]
pub enum PassphraseSource {
    /// From the configuration: a default and a list of candidates.
    Configured,
    /// Explicitly, from the prompt.
    Prompt,
    /// Explicitly, as a value that the caller reads from elsewhere.
    Supplied,
}

/// What the human is told before being asked.
#[derive(Clone, Copy, Debug, PartialEq, Eq, Structural)]
pub enum PromptNotice {
    /// The secret is protected, and `tried` candidates did not match.
    Protected { tried: usize },
    /// The passphrase just given was wrong.
    WrongPassphrase,
}

/// Why a claim ended without a plaintext.
#[derive(Clone, Copy, Debug, PartialEq, Eq, Structural)]
pub enum ClaimFailure {
    /// No share link was given.
    MissingShareUrl,
    /// The share link does not parse.
    InvalidShareUrl,
    /// The key in the share link is not a client key.
    KeyDerivation,
    /// The server did not hand out the envelope.
    ClaimRefused,
    /// The envelope is malformed or did not decrypt.
    Envelope { error: EnvelopeError },
    /// The passphrase could not be read.
    PassphraseUnreadable,
    /// The human answered the prompt with nothing.
    EmptyPassphrase,
    /// No candidate matched and no terminal is attached to ask at.
    PassphraseNeeded { tried: usize },
    /// The event does not answer the action that went before.
    OutOfTurn,
}

/// What the caller configured for one claim.
#[derive(Clone, Debug, PartialEq, Eq)]
pub struct ClaimSettings {
    /// The share link, where one was given.
    pub share_url: Option<Vec<u8>>,
    /// The configured address of the server.
    pub base_url: Vec<u8>,
    /// Whether that address was set on purpose, so that the share link's
    /// own address does not replace it.
    pub base_url_fixed: bool,
    /// Where the passphrase comes from.
    pub source: PassphraseSource,
    /// The configured default passphrase; empty where there is none.
    pub default_passphrase: Vec<u8>,
    /// The configured list of further passphrases.
    pub passphrases: Vec<Vec<u8>>,
    /// Whether a terminal is attached.
    pub interactive: bool,
}

/// What happened outside since the last action.
#[derive(Clone, Debug, PartialEq, Eq)]
pub enum ClaimEvent {
    /// The claim starts.
    Begin { settings: ClaimSettings },
    /// The server handed out the envelope, in its wire form.
    Fetched { envelope: Vec<u8> },
    /// The server did not hand out the envelope.
    FetchFailed,
    /// A passphrase was read.
    Passphrase { passphrase: Vec<u8> },
    /// No passphrase could be read.
    PassphraseUnreadable,
}

/// What the caller is to do next.
#[derive(Clone, Debug, PartialEq, Eq)]
pub enum ClaimAction {
    /// Claim the envelope `id` from the server at `base_url`, proving
    /// possession with `claim_token`.
    Fetch { base_url: Vec<u8>, id: Vec<u8>, claim_token: Vec<u8> },
    /// Read the explicitly sourced passphrase.
    ReadPassphrase,
    /// Show the notice and ask the human for a passphrase.
    Prompt { notice: PromptNotice },
    /// Hand out the plaintext; the claim has ended.
    Deliver { plaintext: Vec<u8> },
    /// Report the failure; the claim has ended.
    Fail { failure: ClaimFailure },
}

/// An action as a mathematical value.
pub enum ClaimActionView {
    Fetch { base_url: Seq<u8>, id: Seq<u8>, claim_token: Seq<u8> },
    ReadPassphrase,
    Prompt { notice: PromptNotice },
    Deliver { plaintext: Seq<u8> },
    Fail { failure: ClaimFailure },
}

impl View for ClaimAction {
    type V = ClaimActionView;

    open spec fn view(&self) -> ClaimActionView {
        match *self {
            ClaimAction::Fetch { base_url, id, claim_token } => ClaimActionView::Fetch {
                base_url: base_url@,
                id: id@,
                claim_token: claim_token@,
            },
            ClaimAction::ReadPassphrase => ClaimActionView::ReadPassphrase,
            ClaimAction::Prompt { notice } => ClaimActionView::Prompt { notice },
            ClaimAction::Deliver { plaintext } => ClaimActionView::Deliver { plaintext: plaintext@ },
            ClaimAction::Fail { failure } => ClaimActionView::Fail { failure },
        }
    }
}

/// What a claim remembers between events.
#[derive(Clone, Debug, PartialEq, Eq)]
pub struct ClaimSession {
    /// Where the claim stands.
    pub phase: ClaimPhase,
    /// Where the passphrase comes from.
    pub source: PassphraseSource,
    /// Whether a terminal is attached.
    pub interactive: bool,
    /// The client key from the share link.
    pub client_key: Vec<u8>,
    /// The configured candidates, in the order in which they are tried.
    pub candidates: Vec<Vec<u8>>,
    /// The envelope, once the server has handed it out.
    pub envelope: Option<Envelope>,
}

/// A session as a mathematical value.
pub struct ClaimSessionView {
    pub phase: ClaimPhase,
    pub source: PassphraseSource,
    pub interactive: bool,
    pub client_key: Seq<u8>,
    pub candidates: Seq<Seq<u8>>,
    pub envelope: Option<EnvelopeView>,
}

impl View for ClaimSession {
    type V = ClaimSessionView;

    open spec fn view(&self) -> ClaimSessionView {
        ClaimSessionView {
            phase: self.phase,
            source: self.source,
            interactive: self.interactive,
            client_key: self.client_key@,
            candidates: texts(self.candidates@),
            envelope: match self.envelope {
                Some(envelope) => Some(envelope@),
                None => None,
            },
        }
    }
}

/// The session before anything has happened.
pub open spec fn initial_session() -> ClaimSessionView {
    ClaimSessionView {
        phase: ClaimPhase::Idle,
        source: PassphraseSource::Configured,
        interactive: false,
        client_key: Seq::empty(),
        candidates: Seq::empty(),
        envelope: None,
    }
}

/// The session, ended.
pub open spec fn ended(s: ClaimSessionView) -> ClaimSessionView {
    ClaimSessionView { phase: ClaimPhase::Finished, ..s }
}

/// The claim ends with a failure.
pub open spec fn fails(s: ClaimSessionView, failure: ClaimFailure) -> (
    ClaimSessionView,
    ClaimActionView,
) {
    (ended(s), ClaimActionView::Fail { failure })
}

/// The claim ends with the plaintext.
pub open spec fn delivers(s: ClaimSessionView, plaintext: Seq<u8>) -> (
    ClaimSessionView,
    ClaimActionView,
) {
    (ended(s), ClaimActionView::Deliver { plaintext })
}

/// The address of the server to claim from: the share link's own scheme and
/// authority, unless an address was set on purpose or the link has none.
pub open spec fn server_spec(base_url: Seq<u8>, fixed: bool, share_url: Seq<u8>) -> Seq<u8> {
    if fixed {
        base_url
    } else {
        match share_origin_spec(share_url) {
            Some(origin) => origin,
            None => base_url,
        }
    }
}

/// The candidates that a claim keeps: the configured ones where the
/// passphrase comes from the configuration, none where it is sourced
/// explicitly.
pub open spec fn kept_candidates(settings: ClaimSettings) -> Seq<Seq<u8>> {
    if settings.source == PassphraseSource::Configured {
        candidates_spec(configured_spec(settings.default_passphrase@, texts(settings.passphrases@)))
    } else {
        Seq::empty()
    }
}

/// The first step: the share link is taken apart and the envelope asked for.
pub open spec fn begin_spec(s: ClaimSessionView, settings: ClaimSettings) -> (
    ClaimSessionView,
    ClaimActionView,
) {
    match settings.share_url {
        None => fails(s, ClaimFailure::MissingShareUrl),
        Some(url) => match parse_share_url_spec(url@) {
            None => fails(s, ClaimFailure::InvalidShareUrl),
            Some((id, client_key)) => if client_key.len() != KEY_LEN {
                fails(s, ClaimFailure::KeyDerivation)
            } else {
                (
                    ClaimSessionView {
                        phase: ClaimPhase::Fetching,
                        source: settings.source,
                        interactive: settings.interactive,
                        client_key: client_key,
                        candidates: kept_candidates(settings),
                        envelope: None,
                    },
                    ClaimActionView::Fetch {
                        base_url: server_spec(settings.base_url@, settings.base_url_fixed, url@),
                        id: id,
                        claim_token: claim_token_spec(client_key),
                    },
                )
            },
        },
    }
}

/// What follows when no configured passphrase matched: the end where no
/// passphrase can help or nobody can be asked, the prompt otherwise.
pub open spec fn fallback_spec(s: ClaimSessionView, required: bool) -> (
    ClaimSessionView,
    ClaimActionView,
) {
    let tried = s.candidates.len() as usize;
    if !required && tried == 0 {
        fails(s, ClaimFailure::Envelope { error: EnvelopeError::DecryptionFailed })
    } else if !s.interactive {
        fails(s, ClaimFailure::PassphraseNeeded { tried })
    } else {
        (
            ClaimSessionView { phase: ClaimPhase::Prompting, ..s },
            ClaimActionView::Prompt { notice: PromptNotice::Protected { tried } },
        )
    }
}

/// What follows from trying the configured passphrases. `bare` is what the
/// empty passphrase gave, and counts only where the envelope requires none;
/// `trial` is how the candidates ended, and counts only where the empty
/// passphrase did not decide.
pub open spec fn configured_outcome(
    s: ClaimSessionView,
    required: bool,
    bare: Result<Seq<u8>, EnvelopeError>,
    trial: TrialView,
) -> (ClaimSessionView, ClaimActionView) {
    if !required && bare != Err::<Seq<u8>, EnvelopeError>(EnvelopeError::DecryptionFailed) {
        match bare {
            Ok(plaintext) => delivers(s, plaintext),
            Err(error) => fails(s, ClaimFailure::Envelope { error }),
        }
    } else {
        match trial {
            TrialView::Opened { index, plaintext } => delivers(s, plaintext),
            TrialView::Refused { index, error } => fails(s, ClaimFailure::Envelope { error }),
            TrialView::Exhausted => fallback_spec(s, required),
        }
    }
}

/// The configured passphrases are tried on the envelope: the empty one
/// first where the envelope requires none, then the candidates in order.
pub open spec fn configured_step_spec(s: ClaimSessionView, envelope: EnvelopeView) -> (
    ClaimSessionView,
    ClaimActionView,
) {
    configured_outcome(
        s,
        envelope.passphrase_required,
        open_spec(envelope, s.client_key, Seq::empty()),
        trial_spec(envelope, s.client_key, s.candidates),
    )
}

/// The envelope has arrived.
pub open spec fn fetched_spec(s: ClaimSessionView, bytes: Seq<u8>) -> (
    ClaimSessionView,
    ClaimActionView,
) {
    match from_wire_spec(bytes) {
        None => fails(s, ClaimFailure::Envelope { error: EnvelopeError::MalformedEnvelope }),
        Some(envelope) => {
            let held = ClaimSessionView { envelope: Some(envelope), ..s };
            if s.source == PassphraseSource::Configured {
                configured_step_spec(held, envelope)
            } else {
                (
                    ClaimSessionView { phase: ClaimPhase::AwaitingPassphrase, ..held },
                    ClaimActionView::ReadPassphrase,
                )
            }
        },
    }
}

/// Whether a wrong passphrase from an explicit source is asked for again:
/// only where it came from the prompt, a terminal is attached and the
/// envelope requires a passphrase.
pub open spec fn may_ask_again(s: ClaimSessionView, envelope: EnvelopeView) -> bool {
    s.source == PassphraseSource::Prompt && s.interactive && envelope.passphrase_required
}

/// What follows from opening with the explicitly sourced passphrase: the
/// plaintext, the prompt after a failed decryption where asking `again` is
/// in order, the end otherwise.
pub open spec fn supplied_outcome(
    s: ClaimSessionView,
    again: bool,
    opened: Result<Seq<u8>, EnvelopeError>,
) -> (ClaimSessionView, ClaimActionView) {
    match opened {
        Ok(plaintext) => delivers(s, plaintext),
        Err(error) => if error == EnvelopeError::DecryptionFailed && again {
            (
                ClaimSessionView { phase: ClaimPhase::Prompting, ..s },
                ClaimActionView::Prompt { notice: PromptNotice::WrongPassphrase },
            )
        } else {
            fails(s, ClaimFailure::Envelope { error })
        },
    }
}

/// The explicitly sourced passphrase has arrived.
pub open spec fn supplied_spec(s: ClaimSessionView, passphrase: Seq<u8>) -> (
    ClaimSessionView,
    ClaimActionView,
) {
    match s.envelope {
        None => fails(s, ClaimFailure::OutOfTurn),
        Some(envelope) => supplied_outcome(
            s,
            may_ask_again(s, envelope),
            open_spec(envelope, s.client_key, passphrase),
        ),
    }
}

/// What follows from opening with an answer to the prompt: the plaintext,
/// the prompt again after a failed decryption, the end otherwise.
pub open spec fn answered_outcome(s: ClaimSessionView, opened: Result<Seq<u8>, EnvelopeError>) -> (
    ClaimSessionView,
    ClaimActionView,
) {
    match opened {
        Ok(plaintext) => delivers(s, plaintext),
        Err(error) => if error == EnvelopeError::DecryptionFailed {
            (s, ClaimActionView::Prompt { notice: PromptNotice::WrongPassphrase })
        } else {
            fails(s, ClaimFailure::Envelope { error })
        },
    }
}

/// The human has answered the prompt. An empty answer ends the claim.
pub open spec fn answered_spec(s: ClaimSessionView, passphrase: Seq<u8>) -> (
    ClaimSessionView,
    ClaimActionView,
) {
    match s.envelope {
        None => fails(s, ClaimFailure::OutOfTurn),
        Some(envelope) => if passphrase.len() == 0 {
            fails(s, ClaimFailure::EmptyPassphrase)
        } else {
            answered_outcome(s, open_spec(envelope, s.client_key, passphrase))
        },
    }
}

/// One step of a claim: the session and the action that follow from a
/// session and an event.
pub open spec fn claim_step(s: ClaimSessionView, event: ClaimEvent) -> (
    ClaimSessionView,
    ClaimActionView,
) {
    match (s.phase, event) {
        (ClaimPhase::Idle, ClaimEvent::Begin { settings }) => begin_spec(s, settings),
        (ClaimPhase::Fetching, ClaimEvent::Fetched { envelope }) => fetched_spec(s, envelope@),
        (ClaimPhase::Fetching, ClaimEvent::FetchFailed) => fails(s, ClaimFailure::ClaimRefused),
        (ClaimPhase::AwaitingPassphrase, ClaimEvent::Passphrase { passphrase }) => supplied_spec(
            s,
            passphrase@,
        ),
        (ClaimPhase::AwaitingPassphrase, ClaimEvent::PassphraseUnreadable) => fails(
            s,
            ClaimFailure::PassphraseUnreadable,
        ),
        (ClaimPhase::Prompting, ClaimEvent::Passphrase { passphrase }) => answered_spec(
            s,
            passphrase@,
        ),
        (ClaimPhase::Prompting, ClaimEvent::PassphraseUnreadable) => fails(
            s,
            ClaimFailure::PassphraseUnreadable,
        ),
        _ => fails(s, ClaimFailure::OutOfTurn),
    }
}

/// What holds of every session that a claim reaches: a passphrase is only
/// awaited for an envelope that is there and well-formed, only asked for at
/// a terminal, and only awaited from an explicit source where there is one.
pub open spec fn session_inv(s: ClaimSessionView) -> bool {
    &&& (s.phase == ClaimPhase::AwaitingPassphrase || s.phase == ClaimPhase::Prompting) ==> (
    s.envelope is Some && s.envelope.unwrap().wf() && s.client_key.len() == KEY_LEN)
    &&& s.phase == ClaimPhase::Prompting ==> s.interactive
    &&& s.phase == ClaimPhase::AwaitingPassphrase ==> s.source != PassphraseSource::Configured
    &&& s.source != PassphraseSource::Configured ==> s.candidates.len() == 0
    &&& s.phase == ClaimPhase::Fetching ==> s.client_key.len() == KEY_LEN
}

/// The invariant holds at the start and after every step.
pub proof fn lemma_step_keeps_invariant(s: ClaimSessionView, event: ClaimEvent)
    requires
        session_inv(s),
    ensures
        session_inv(initial_session()),
        session_inv(claim_step(s, event).0),
{
    match (s.phase, event) {
        (ClaimPhase::Fetching, ClaimEvent::Fetched { envelope }) => {
            if from_wire_spec(envelope@) is Some {
                lemma_write_after_read(envelope@);
            }
        },
        _ => {},
    }
}

/// Nobody is asked where no terminal is attached: a step that ends in a
/// prompt leaves an interactive session, and a session that was configured
/// as not interactive never prompts.
pub proof fn lemma_prompt_needs_terminal(s: ClaimSessionView, event: ClaimEvent)
    requires
        session_inv(s),
        claim_step(s, event).1 is Prompt,
    ensures
        claim_step(s, event).0.phase == ClaimPhase::Prompting,
        claim_step(s, event).0.interactive,
        s.phase != ClaimPhase::Idle ==> s.interactive,
{
}

/// Only a failed decryption is answered with another attempt: where a
/// passphrase arrives and the claim goes on, that passphrase failed to
/// decrypt the envelope.
pub proof fn lemma_only_failed_decryption_retries(s: ClaimSessionView, passphrase: Vec<u8>)
    requires
        session_inv(s),
        claim_step(s, ClaimEvent::Passphrase { passphrase }).0.phase != ClaimPhase::Finished,
    ensures
        s.envelope is Some,
        fails_to_decrypt(s.envelope.unwrap(), s.client_key, passphrase@),
        claim_step(s, ClaimEvent::Passphrase { passphrase }).1 == (ClaimActionView::Prompt {
            notice: PromptNotice::WrongPassphrase,
        }),
{
}

/// A plaintext is handed out only where some passphrase opens the envelope
/// to it: the empty one, a configured candidate, or the one that arrived.
pub proof fn lemma_delivery_is_an_opening(s: ClaimSessionView, event: ClaimEvent)
    requires
        claim_step(s, event).1 is Deliver,
    ensures
        claim_step(s, event).0.envelope is Some,
        exists|passphrase: Seq<u8>|
            open_spec(claim_step(s, event).0.envelope.unwrap(), s.client_key, passphrase) == Ok::<
                Seq<u8>,
                EnvelopeError,
            >(claim_step(s, event).1->Deliver_plaintext),
{
    let plaintext = claim_step(s, event).1->Deliver_plaintext;
    match (s.phase, event) {
        (ClaimPhase::Fetching, ClaimEvent::Fetched { envelope }) => {
            let e = from_wire_spec(envelope@).unwrap();
            let bare = open_spec(e, s.client_key, Seq::empty());
            if !e.passphrase_required && bare != Err::<Seq<u8>, EnvelopeError>(
                EnvelopeError::DecryptionFailed,
            ) {
                assert(bare == Ok::<Seq<u8>, EnvelopeError>(plaintext));
            } else {
                lemma_first_decisive(e, s.client_key, s.candidates, 0);
                let at = trial_spec(e, s.client_key, s.candidates)->Opened_index;
                assert(open_spec(e, s.client_key, s.candidates[at]) == Ok::<Seq<u8>, EnvelopeError>(
                    plaintext,
                ));
            }
        },
        (ClaimPhase::AwaitingPassphrase, ClaimEvent::Passphrase { passphrase }) => {
            assert(open_spec(s.envelope.unwrap(), s.client_key, passphrase@) == Ok::<
                Seq<u8>,
                EnvelopeError,
            >(plaintext));
        },
        (ClaimPhase::Prompting, ClaimEvent::Passphrase { passphrase }) => {
            assert(open_spec(s.envelope.unwrap(), s.client_key, passphrase@) == Ok::<
                Seq<u8>,
                EnvelopeError,
            >(plaintext));
        },
        _ => {},
    }
}

impl ClaimFailure {
    /// The exit status that a program reports the failure with: 2 for a
    /// share link that is missing or wrong, 1 for everything else.
    pub fn exit_code(&self) -> (code: i32)
        ensures
            code == if *self == ClaimFailure::MissingShareUrl || *self
                == ClaimFailure::InvalidShareUrl {
                2i32
            } else {
                1i32
            },
    {
        match self {
            ClaimFailure::MissingShareUrl => 2,
            ClaimFailure::InvalidShareUrl => 2,
            _ => 1,
        }
    }
}

impl ClaimSession {
    /// A session before anything has happened.
    pub fn new() -> (session: ClaimSession)
        ensures
            session@ == initial_session(),
    {
        let session = ClaimSession {
            phase: ClaimPhase::Idle,
            source: PassphraseSource::Configured,
            interactive: false,
            client_key: Vec::new(),
            candidates: Vec::new(),
            envelope: None,
        };
        assert(session@.candidates =~= Seq::<Seq<u8>>::empty());
        assert(session@.client_key =~= Seq::<u8>::empty());
        session
    }

    /// Ends the claim with a failure.
    fn fail(&mut self, failure: ClaimFailure) -> (action: ClaimAction)
        ensures
            (final(self)@, action@) == fails(old(self)@, failure),
    {
        self.phase = ClaimPhase::Finished;
        ClaimAction::Fail { failure }
    }

    /// Ends the claim with the plaintext.
    fn deliver(&mut self, plaintext: Vec<u8>) -> (action: ClaimAction)
        ensures
            (final(self)@, action@) == delivers(old(self)@, plaintext@),
    {
        self.phase = ClaimPhase::Finished;
        ClaimAction::Deliver { plaintext }
    }

    fn begin(&mut self, settings: ClaimSettings) -> (action: ClaimAction)
        ensures
            (final(self)@, action@) == begin_spec(old(self)@, settings),
    {
        let url = match &settings.share_url {
            Some(url) => url,
            None => {
                return self.fail(ClaimFailure::MissingShareUrl);
            },
        };
        let (id, client_key) = match parse_share_url(url.as_slice()) {
            Ok(parts) => parts,
            Err(_) => {
                return self.fail(ClaimFailure::InvalidShareUrl);
            },
        };
        let claim_token = match derive_claim_token(client_key.as_slice()) {
            Ok(token) => token,
            Err(_) => {
                return self.fail(ClaimFailure::KeyDerivation);
            },
        };
        let base_url = if settings.base_url_fixed {
            copy_bytes(settings.base_url.as_slice())
        } else {
            match share_origin(url.as_slice()) {
                Some(origin) => origin,
                None => copy_bytes(settings.base_url.as_slice()),
            }
        };
        let candidates = match settings.source {
            PassphraseSource::Configured => candidate_list(
                settings.default_passphrase.as_slice(),
                &settings.passphrases,
            ),
            _ => {
                let none: Vec<Vec<u8>> = Vec::new();
                assert(texts(none@) =~= Seq::<Seq<u8>>::empty());
                none
            },
        };
        self.phase = ClaimPhase::Fetching;
        self.source = settings.source;
        self.interactive = settings.interactive;
        self.client_key = client_key;
        self.candidates = candidates;
        self.envelope = None;
        ClaimAction::Fetch { base_url, id, claim_token }
    }

    fn fallback(&mut self, required: bool) -> (action: ClaimAction)
        ensures
            (final(self)@, action@) == fallback_spec(old(self)@, required),
    {
        let tried = self.candidates.len();
        if !required && tried == 0 {
            self.fail(ClaimFailure::Envelope { error: EnvelopeError::DecryptionFailed })
        } else if !self.interactive {
            self.fail(ClaimFailure::PassphraseNeeded { tried })
        } else {
            self.phase = ClaimPhase::Prompting;
            ClaimAction::Prompt { notice: PromptNotice::Protected { tried } }
        }
    }

    /// Goes on after the configured passphrases were tried. `bare` is what
    /// the empty passphrase gave and `trial` how the candidates ended; the
    /// first counts only where the envelope requires no passphrase, the
    /// second only where the first did not decide.
    pub fn settle_configured(
        &mut self,
        required: bool,
        bare: Result<Vec<u8>, EnvelopeError>,
        trial: Trial,
    ) -> (action: ClaimAction)
        ensures
            (final(self)@, action@) == configured_outcome(
                old(self)@,
                required,
                result_view(bare),
                trial@,
            ),
    {
        if !required {
            match bare {
                Ok(plaintext) => {
                    return self.deliver(plaintext);
                },
                Err(EnvelopeError::DecryptionFailed) => {},
                Err(error) => {
                    return self.fail(ClaimFailure::Envelope { error });
                },
            }
        }
        match trial {
            Trial::Opened { index, plaintext } => self.deliver(plaintext),
            Trial::Refused { index, error } => self.fail(ClaimFailure::Envelope { error }),
            Trial::Exhausted => self.fallback(required),
        }
    }

    fn try_configured(&mut self) -> (action: ClaimAction)
        requires
            old(self).envelope is Some,
        ensures
            (final(self)@, action@) == configured_step_spec(
                old(self)@,
                old(self)@.envelope.unwrap(),
            ),
    {
        let (required, bare, trial) = match &self.envelope {
            Some(envelope) => {
                let required = envelope.passphrase_required;
                let nothing: Vec<u8> = Vec::new();
                assert(nothing@ =~= Seq::<u8>::empty());
                let bare = if required {
                    Err(EnvelopeError::DecryptionFailed)
                } else {
                    open(envelope, self.client_key.as_slice(), nothing.as_slice())
                };
                let undecided = required || match &bare {
                    Err(EnvelopeError::DecryptionFailed) => true,
                    _ => false,
                };
                let trial = if undecided {
                    try_candidates(envelope, self.client_key.as_slice(), &self.candidates)
                } else {
                    Trial::Exhausted
                };
                (required, bare, trial)
            },
            None => (false, Err(EnvelopeError::MalformedEnvelope), Trial::Exhausted),
        };
        self.settle_configured(required, bare, trial)
    }

    fn fetched(&mut self, bytes: Vec<u8>) -> (action: ClaimAction)
        ensures
            (final(self)@, action@) == fetched_spec(old(self)@, bytes@),
    {
        let envelope = match Envelope::from_bytes(bytes.as_slice()) {
            Ok(envelope) => envelope,
            Err(error) => {
                return self.fail(ClaimFailure::Envelope { error });
            },
        };
        self.envelope = Some(envelope);
        match self.source {
            PassphraseSource::Configured => self.try_configured(),
            _ => {
                self.phase = ClaimPhase::AwaitingPassphrase;
                ClaimAction::ReadPassphrase
            },
        }
    }

    /// Goes on after the envelope was opened with the explicitly sourced
    /// passphrase; `again` says whether a wrong one is asked for again.
    pub fn settle_supplied(&mut self, again: bool, opened: Result<Vec<u8>, EnvelopeError>) -> (action:
        ClaimAction)
        ensures
            (final(self)@, action@) == supplied_outcome(old(self)@, again, result_view(opened)),
    {
        match opened {
            Ok(plaintext) => self.deliver(plaintext),
            Err(EnvelopeError::DecryptionFailed) => {
                if again {
                    self.phase = ClaimPhase::Prompting;
                    ClaimAction::Prompt { notice: PromptNotice::WrongPassphrase }
                } else {
                    self.fail(ClaimFailure::Envelope { error: EnvelopeError::DecryptionFailed })
                }
            },
            Err(error) => self.fail(ClaimFailure::Envelope { error }),
        }
    }

    fn supplied(&mut self, passphrase: Vec<u8>) -> (action: ClaimAction)
        ensures
            (final(self)@, action@) == supplied_spec(old(self)@, passphrase@),
    {
        let (opened, again) = match &self.envelope {
            Some(envelope) => {
                let again = match self.source {
                    PassphraseSource::Prompt => self.interactive && envelope.passphrase_required,
                    _ => false,
                };
                (open(envelope, self.client_key.as_slice(), passphrase.as_slice()), again)
            },
            None => {
                return self.fail(ClaimFailure::OutOfTurn);
            },
        };
        self.settle_supplied(again, opened)
    }

    /// Goes on after the envelope was opened with an answer to the prompt.
    pub fn settle_answer(&mut self, opened: Result<Vec<u8>, EnvelopeError>) -> (action: ClaimAction)
        ensures
            (final(self)@, action@) == answered_outcome(old(self)@, result_view(opened)),
    {
        match opened {
            Ok(plaintext) => self.deliver(plaintext),
            Err(EnvelopeError::DecryptionFailed) => ClaimAction::Prompt {
                notice: PromptNotice::WrongPassphrase,
            },
            Err(error) => self.fail(ClaimFailure::Envelope { error }),
        }
    }

    fn answered(&mut self, passphrase: Vec<u8>) -> (action: ClaimAction)
        ensures
            (final(self)@, action@) == answered_spec(old(self)@, passphrase@),
    {
        let opened = match &self.envelope {
            Some(envelope) => {
                if passphrase.len() == 0 {
                    return self.fail(ClaimFailure::EmptyPassphrase);
                }
                open(envelope, self.client_key.as_slice(), passphrase.as_slice())
            },
            None => {
                return self.fail(ClaimFailure::OutOfTurn);
            },
        };
        self.settle_answer(opened)
    }
}

/// Takes a claim one step further: hands in what happened outside and gets
/// what to do next.
///
/// The first event of a claim is `Begin`; after `Deliver` or `Fail` the
/// claim has ended and every further event is out of turn.
pub fn run_claim(session: &mut ClaimSession, event: ClaimEvent) -> (action: ClaimAction)
    ensures
        (final(session)@, action@) == claim_step(old(session)@, event),
{
    match session.phase {
        ClaimPhase::Idle => match event {
            ClaimEvent::Begin { settings } => session.begin(settings),
            _ => session.fail(ClaimFailure::OutOfTurn),
        },
        ClaimPhase::Fetching => match event {
            ClaimEvent::Fetched { envelope } => session.fetched(envelope),
            ClaimEvent::FetchFailed => session.fail(ClaimFailure::ClaimRefused),
            _ => session.fail(ClaimFailure::OutOfTurn),
        },
        ClaimPhase::AwaitingPassphrase => match event {
            ClaimEvent::Passphrase { passphrase } => session.supplied(passphrase),
            ClaimEvent::PassphraseUnreadable => session.fail(ClaimFailure::PassphraseUnreadable),
            _ => session.fail(ClaimFailure::OutOfTurn),
        },
        ClaimPhase::Prompting => match event {
            ClaimEvent::Passphrase { passphrase } => session.answered(passphrase),
            ClaimEvent::PassphraseUnreadable => session.fail(ClaimFailure::PassphraseUnreadable),
            _ => session.fail(ClaimFailure::OutOfTurn),
        },
        ClaimPhase::Finished => session.fail(ClaimFailure::OutOfTurn),
    }
}

} // verus!
