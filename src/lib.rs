//! Bearer-token gate for a small user service: a JSON Web Key Set, a token
//! verifier pinned to RS256, the per-request decision of the auth layer, and the
//! status rules of the user handlers.
pub mod gate;
pub mod jwks;
pub mod token;
pub mod users;
