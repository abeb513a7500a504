//! The key-provider message shapes exchanged with container-image tooling.
//! These are plain data; the surrounding program carries them to and from
//! their JSON wire form.
use vstd::prelude::*;

verus! {

use std::collections::HashMap;

pub struct KeyProviderInput {
    pub op: String,
    pub keywrapparams: KeyWrapParams,
    pub keyunwrapparams: KeyUnwrapParams,
}

pub struct KeyWrapParams {
    pub ec: Option<Ec>,
    pub optsdata: Option<String>,
}

pub struct Ec {
    pub parameters: HashMap<String, Vec<String>>,
    pub decrypt_config: Dc,
}

pub struct KeyWrapOutput {
    pub keywrapresults: KeyWrapResults,
}

pub struct KeyWrapResults {
    pub annotation: Vec<u8>,
}

pub struct KeyUnwrapParams {
    pub dc: Option<Dc>,
    pub annotation: Option<String>,
}

pub struct Dc {
    pub parameters: HashMap<String, Vec<String>>,
}

pub struct KeyUnwrapOutput {
    pub keyunwrapresults: KeyUnwrapResults,
}

pub struct KeyUnwrapResults {
    pub optsdata: Vec<u8>,
}

} // verus!
