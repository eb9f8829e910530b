//! The secrets table that a sandboxed router reads through: a key is looked
//! up once, its value kept under a fresh handle, and revealed by handle.
use vstd::prelude::*;

verus! {

/// A secret's value.
pub enum SecretValue {
    String(String),
    Bytes(Vec<u8>),
}

impl SecretValue {
    /// What a secret shows when it is displayed: never its payload.
    pub fn redacted(&self) -> (r: String)
        ensures
            r@ == "<redacted>"@,
    {
        String::from_str("<redacted>")
    }
}

/// Why a secret could not be had.
#[derive(PartialEq, Eq, Structural, Debug, Clone, Copy)]
pub enum SecretsError {
    /// No secret under that key, or no secret behind that handle.
    NotFound,
    /// Every handle has been given out.
    HandlesExhausted,
}

/// The secrets of one host. Handles count up from 1: the `i`-th secret kept
/// (from 0) has the handle `i + 1`. Nothing is ever taken out, so dropping a
/// handle needs no work.
pub struct BasicSecretsImports {
    secret_store: Vec<SecretValue>,
}

impl View for BasicSecretsImports {
    type V = Seq<SecretValue>;

    closed spec fn view(&self) -> Seq<SecretValue> {
        self.secret_store@
    }
}

/// The value behind `handle` among the kept secrets `kept`, if any.
pub open spec fn revealed(kept: Seq<SecretValue>, handle: u32) -> Option<SecretValue> {
    if 1 <= handle && handle <= kept.len() {
        Some(kept[handle - 1])
    } else {
        None
    }
}

impl BasicSecretsImports {
    /// A table with no secret.
    pub fn new() -> (r: Self)
        ensures
            r@ == Seq::<SecretValue>::empty(),
    {
        BasicSecretsImports { secret_store: Vec::new() }
    }

    /// Keeps the value that the host found under a key, and returns its new
    /// handle. `fetched` is `None` when the host found nothing under the key,
    /// which gives `NotFound`; nothing is kept then.
    pub fn store_secret(&mut self, fetched: Option<SecretValue>) -> (r: Result<u32, SecretsError>)
        ensures
            match fetched {
                None => r == Err::<u32, SecretsError>(SecretsError::NotFound) && final(self)@ == old(
                    self,
                )@,
                Some(v) => if old(self)@.len() < u32::MAX {
                    r == Ok::<u32, SecretsError>((old(self)@.len() + 1) as u32) && final(self)@
                        == old(self)@.push(v)
                } else {
                    r == Err::<u32, SecretsError>(SecretsError::HandlesExhausted) && final(self)@
                        == old(self)@
                },
            },
    {
        match fetched {
            None => Err(SecretsError::NotFound),
            Some(v) => {
                let n = self.secret_store.len();
                if n >= u32::MAX as usize {
                    return Err(SecretsError::HandlesExhausted);
                }
                self.secret_store.push(v);
                Ok((n + 1) as u32)
            },
        }
    }

    /// The value behind `handle`, or `NotFound` when no secret has it.
    pub fn reveal_secret(&self, handle: u32) -> (r: Result<&SecretValue, SecretsError>)
        ensures
            match revealed(self@, handle) {
                Some(v) => r matches Ok(x) && *x == v,
                None => r == Err::<&SecretValue, SecretsError>(SecretsError::NotFound),
            },
    {
        if handle == 0 || handle as usize > self.secret_store.len() {
            return Err(SecretsError::NotFound);
        }
        Ok(&self.secret_store[(handle - 1) as usize])
    }
}

} // verus!
