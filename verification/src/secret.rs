//! Naming of secrets held in environment variables.

use vstd::prelude::*;
use crate::text::{push_char, push_str, to_uppercase, unicode_uppercase};

verus! {

/// Simple environment variable based secret provider.
#[derive(Debug, Clone)]
pub struct EnvSecretProvider {
    prefix: Option<String>,
}

/// The environment variable that holds the secret `name`: its upper-cased
/// name, after the prefix and an underscore when there is a prefix.
pub open spec fn env_key(prefix: Option<Seq<char>>, name: Seq<char>) -> Seq<char> {
    match prefix {
        Some(p) => p + seq!['_'] + unicode_uppercase(name),
        None => unicode_uppercase(name),
    }
}

impl EnvSecretProvider {
    pub closed spec fn spec_prefix(&self) -> Option<Seq<char>> {
        match self.prefix {
            Some(p) => Some(p@),
            None => None,
        }
    }

    pub fn new() -> (r: Self)
        ensures
            r.spec_prefix() is None,
    {
        Self { prefix: None }
    }

    pub fn with_prefix(prefix: &str) -> (r: Self)
        ensures
            r.spec_prefix() == Some(prefix@),
    {
        Self { prefix: Some(String::from_str(prefix)) }
    }

    /// The environment variable that holds the secret `name`.
    pub fn key_name(&self, name: &str) -> (r: String)
        ensures
            r@ == env_key(self.spec_prefix(), name@),
    {
        match &self.prefix {
            Some(prefix) => {
                let mut s = prefix.clone();
                push_char(&mut s, '_');
                let upper = to_uppercase(name);
                push_str(&mut s, upper.as_str());
                s
            },
            None => to_uppercase(name),
        }
    }
}

impl Default for EnvSecretProvider {
    fn default() -> (r: Self)
        ensures
            r.spec_prefix() is None,
    {
        Self::new()
    }
}

#[derive(Debug, Clone)]
pub enum SecretError {
    NotFound(String),
}

impl SecretError {
    /// The message that the error displays as.
    pub open spec fn message_text(&self) -> Seq<char> {
        match self {
            SecretError::NotFound(k) => "secret not found: "@ + k@,
        }
    }

    /// The message that the error displays as.
    pub fn to_string(&self) -> (r: String)
        ensures
            r@ == self.message_text(),
    {
        match self {
            SecretError::NotFound(k) => {
                let mut s = String::from_str("secret not found: ");
                push_str(&mut s, k.as_str());
                s
            },
        }
    }
}

} // verus!
