//! Envelope protocol for one-time secrets.
//!
//! A secret is sealed locally into an [`envelope::Envelope`], only ciphertext is
//! handed to the server, and the recipient gets one link that both locates the
//! envelope and carries the key that opens it. Every function here is a pure
//! function of its arguments: randomness, the network and the terminal belong
//! to the caller.
//!
//! | module       | what it holds                                              |
//! |--------------|------------------------------------------------------------|
//! | `codec`      | base64url without padding                                  |
//! | `ttl`        | lifetimes such as `5m`                                     |
//! | `url`        | share links: id for the server, key for the recipient      |
//! | `token`      | claim token and claim commitment                           |
//! | `envelope`   | the envelope and its wire form                             |
//! | `cipher`     | sealing and opening                                        |
//! | `resolver`   | passphrase candidates and their trial                      |
//! | `claim`      | the state machine of a claim                               |
//! | `create`     | the state machine of a creation                            |
//! | `render`     | what a finished run writes                                 |
//! | `messages`   | the words for failures and notices                         |
//! | `primitives` | the cryptographic primitives, trusted                      |
//! | `json`       | JSON objects, trusted                                      |
//! | `text`       | decoding, trimming, decimal numbers                        |
//! | `bytes`      | helpers on byte strings                                    |

pub mod bytes;
pub mod cipher;
pub mod claim;
pub mod codec;
pub mod create;
pub mod envelope;
pub mod error;
pub mod json;
pub mod messages;
pub mod primitives;
pub mod render;
pub mod resolver;
pub mod text;
pub mod token;
pub mod ttl;
pub mod url;

pub use cipher::{open, requires_passphrase, seal, SealResult};
pub use claim::run_claim;
pub use codec::{b64_decode, b64_encode};
pub use create::run_create;
pub use envelope::Envelope;
pub use error::EnvelopeError;
pub use token::{claim_commitment, derive_claim_token};
pub use ttl::parse_ttl;
pub use url::{format_share_link, parse_share_url};
