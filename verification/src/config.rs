use vstd::prelude::*;
use vstd::string::*;

verus! {

/// The part of the effective node configuration that this library reads and
/// rewrites: the path of the key material and the list of trusted paths that
/// the connection engine may search for assets.
///
/// The engine's own configuration holds many more fields; they pass through
/// the shell untouched, so only these two are modelled here. The shell copies
/// them out of the loaded configuration, applies [`apply_secure_path`], and
/// copies the result back before the connection is built.
pub struct Configuration {
    pub keys_path: String,
    pub trusted_paths: Vec<String>,
}

impl Configuration {
    /// Fold a secure-storage path into the configuration: append it to the
    /// trusted-path list and prefix the keys path with it, separated by `/`.
    ///
    /// Nothing is validated: an empty secure path yields a keys path that
    /// starts with `/`, exactly as the inputs dictate.
    pub fn apply_secure_path(self, secure_path: &String) -> (r: Configuration)
        ensures
            r.keys_path@ == secure_path@ + "/"@ + self.keys_path@,
            r.trusted_paths@ == self.trusted_paths@.push(*secure_path),
    {
        let keys_path = secure_path.clone().concat("/").concat(self.keys_path.as_str());
        let mut trusted_paths = self.trusted_paths;
        trusted_paths.push(secure_path.clone());
        Configuration { keys_path, trusted_paths }
    }
}

/// The empty-string-triggers-default convention used for the password and
/// the node path: an empty `value` is replaced by `fallback`, any other
/// `value` is kept verbatim.
pub fn resolve_or_default(value: String, fallback: String) -> (r: String)
    ensures
        value@.len() == 0 ==> r == fallback,
        value@.len() > 0 ==> r == value,
{
    if value.as_str().is_empty() {
        fallback
    } else {
        value
    }
}

} // verus!
