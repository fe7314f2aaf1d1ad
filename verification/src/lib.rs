//! Stateless builders for Solana requests: each takes a request with its
//! fields as text and numbers, checks them, and answers with a uniform
//! envelope that carries either the result or the reason for refusal.
//!
//! - [`generate_keypair`](mod@generate_keypair) draws a new keypair.
//! - [`message`] signs a message and checks a signature.
//! - [`token`] builds SPL Token instructions: initialise a mint, mint, transfer.
//! - [`transfer`] builds the System program's transfer of lamports.
//!
//! Nothing is sent to a network and nothing is kept between calls. Keys,
//! signatures and instruction payloads are computed by the Solana crates;
//! [`encoding`], [`keys`] and [`instruction`] hold the calls into them, each
//! with the contract it is trusted to meet. Everything else is verified
//! against those contracts.

pub mod encoding;
pub mod generate_keypair;
pub mod instruction;
pub mod keys;
pub mod message;
pub mod response_types;
pub mod token;
pub mod transfer;

pub use crate::generate_keypair::{generate_keypair, KeypairResponse};
pub use crate::instruction::AccountInfo;
pub use crate::message::{
    sign_message, verify_message, SignMessageRequest, SignMessageResponse, VerifyMessageRequest,
    VerifyMessageResponse,
};
pub use crate::response_types::{ErrorResponse, SuccessResponse};
pub use crate::token::{
    create_token, mint_token, send_token, CreateTokenRequest, CreateTokenResponse,
    MintTokenRequest, MintTokenResponse, SendTokenRequest, SendTokenResponse,
};
pub use crate::transfer::{send_sol, SendSolRequest, SendSolResponse};
