//! Session and multi-factor authentication engine, with the client-side
//! rules of the AuthFlow protocol.
//!
//! The engine verifies credentials, issues and validates signed bearer
//! tokens, and runs the two-step challenge protocol of multi-factor
//! authentication. Every operation is an ordinary function on explicit state:
//! the caller supplies the time, the salts and the fresh secrets.

pub mod encoding;
pub mod error;
pub mod crypto;
pub mod types;
pub mod credentials;
pub mod token;
pub mod mfa;
pub mod oauth;
pub mod session;
pub mod client;
pub mod middleware;
pub mod laws;

pub use crate::client::{AuthFlowClient, Endpoint};
pub use crate::credentials::CredentialStore;
pub use crate::error::{AuthError, CredentialError};
pub use crate::mfa::{ChallengeState, MfaChallengeEngine, MfaMethod, MfaPayload};
pub use crate::middleware::{
    AuthFlowMiddleware, AuthFlowMiddlewareService, Decision, MiddlewarePolicy,
};
pub use crate::oauth::OAuthProvider;
pub use crate::session::{AuthSessionService, ServiceConfig};
pub use crate::token::{Claims, TokenIssuer};
pub use crate::types::{
    AuthResponse, LoginRequest, Profile, RegisterRequest, User, UserResponse,
};
