use vstd::prelude::*;

verus! {

/// The command line of the server: where its TLS key and certificate are.
#[derive(Debug, Clone)]
pub struct Args {
    /// Location for the key file
    pub key_file: String,
    /// Location for the cert file
    pub cert_file: String,
}

impl Args {
    pub fn new(key_file: String, cert_file: String) -> (r: Self)
        ensures
            r.key_file@ == key_file@,
            r.cert_file@ == cert_file@,
    {
        Args { key_file, cert_file }
    }
}

} // verus!
