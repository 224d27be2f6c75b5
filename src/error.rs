use vstd::prelude::*;

verus! {

/// Every failure the cranker can report, each with a message for the log.
#[derive(Debug)]
pub enum CrankerError {
    Config(String),
    Rpc(String),
    Transaction(String),
    Pool(String),
    InvalidPoolType(String),
    PrivateKey(String),
    Parse(String),
    Io(String),
    Env(String),
}

} // verus!
