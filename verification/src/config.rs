//! Local configuration: the persisted settings record and the precedence
//! rule that merges it with command-line overrides into the effective
//! settings. Reading and writing the configuration file happens outside the
//! library.

use vstd::prelude::*;
use vstd::string::*;

verus! {

/// The persisted local configuration. Every field is optional; an absent
/// file behaves as the default, all-empty configuration.
pub struct OrbitConfig {
    pub server: Option<String>,
    pub api_key: Option<String>,
    pub tenant: Option<String>,
    pub namespace: Option<String>,
    pub output: Option<String>,
}

impl Default for OrbitConfig {
    /// The empty configuration: no field set.
    fn default() -> (c: Self)
        ensures
            c.server is None,
            c.api_key is None,
            c.tenant is None,
            c.namespace is None,
            c.output is None,
    {
        OrbitConfig { server: None, api_key: None, tenant: None, namespace: None, output: None }
    }
}

/// The settings a run actually uses, after merging command-line values
/// over the configuration file over the built-in defaults.
pub struct Settings {
    pub server: String,
    pub api_key: Option<String>,
    pub tenant: Option<String>,
    pub namespace: Option<String>,
    pub output: String,
}

/// The first present value of two optional ones.
pub open spec fn first_some(a: Option<String>, b: Option<String>) -> Option<String> {
    if a is Some {
        a
    } else {
        b
    }
}

/// Merges command-line overrides with the loaded configuration: each
/// command-line value wins over the configuration's, and the server and
/// output format fall back to "http://localhost:9000" and "table".
pub fn effective_settings(
    cli_server: Option<String>,
    cli_api_key: Option<String>,
    cli_tenant: Option<String>,
    cli_namespace: Option<String>,
    cli_output: Option<String>,
    cfg: OrbitConfig,
) -> (s: Settings)
    ensures
        match first_some(cli_server, cfg.server) {
            Some(v) => s.server == v,
            None => s.server@ == "http://localhost:9000"@,
        },
        s.api_key == first_some(cli_api_key, cfg.api_key),
        s.tenant == first_some(cli_tenant, cfg.tenant),
        s.namespace == first_some(cli_namespace, cfg.namespace),
        match first_some(cli_output, cfg.output) {
            Some(v) => s.output == v,
            None => s.output@ == "table"@,
        },
{
    let server = match cli_server {
        Some(v) => v,
        None => match cfg.server {
            Some(v) => v,
            None => "http://localhost:9000".to_owned(),
        },
    };
    let api_key = match cli_api_key {
        Some(v) => Some(v),
        None => cfg.api_key,
    };
    let tenant = match cli_tenant {
        Some(v) => Some(v),
        None => cfg.tenant,
    };
    let namespace = match cli_namespace {
        Some(v) => Some(v),
        None => cfg.namespace,
    };
    let output = match cli_output {
        Some(v) => v,
        None => match cfg.output {
            Some(v) => v,
            None => "table".to_owned(),
        },
    };
    Settings { server, api_key, tenant, namespace, output }
}

/// The configuration keys `set` accepts, applied to their fields; an
/// unrecognized key is reported exactly.
pub open spec fn unknown_key_text(key: Seq<char>) -> Seq<char> {
    "Unknown key '"@ + key
        + "'. Valid keys: server, api_key, tenant, namespace, output"@
}

impl OrbitConfig {
    /// Sets the named key to the given value: "server", "api_key" (or
    /// "api-key"), "tenant", "namespace" and "output" are accepted; any
    /// other key is an input error naming the valid ones.
    pub fn set_key(&mut self, key: &str, value: String) -> (r: Result<(), crate::errors::OrbitError>)
        ensures
            key@ == "server"@ ==> (r is Ok && final(self).server == Some(value)
                && final(self).api_key == old(self).api_key && final(self).tenant == old(self).tenant && final(self).namespace == old(self).namespace && final(self).output == old(self).output),
            key@ == "api_key"@ || key@ == "api-key"@ ==> (r is Ok && final(self).api_key == Some(
                value,
            ) && final(self).server == old(self).server && final(self).tenant == old(self).tenant
                && final(self).namespace == old(self).namespace && final(self).output == old(self).output),
            key@ == "tenant"@ ==> (r is Ok && final(self).tenant == Some(value) && final(self).server == old(self).server && final(self).api_key == old(self).api_key && final(self).namespace == old(self).namespace && final(self).output == old(self).output),
            key@ == "namespace"@ ==> (r is Ok && final(self).namespace == Some(value) && final(self).server == old(self).server && final(self).api_key == old(self).api_key && final(self).tenant == old(self).tenant && final(self).output == old(self).output),
            key@ == "output"@ ==> (r is Ok && final(self).output == Some(value) && final(self).server == old(self).server && final(self).api_key == old(self).api_key && final(self).tenant == old(self).tenant && final(self).namespace == old(self).namespace),
            key@ != "server"@ && key@ != "api_key"@ && key@ != "api-key"@ && key@ != "tenant"@
                && key@ != "namespace"@ && key@ != "output"@ ==> (r matches Err(
                crate::errors::OrbitError::Input(m),
            ) && m@ == unknown_key_text(key@) && *final(self) == *old(self)),
    {
        proof {
            reveal_strlit("server");
            reveal_strlit("api_key");
            reveal_strlit("api-key");
            reveal_strlit("tenant");
            reveal_strlit("namespace");
            reveal_strlit("output");
            assert("server"@.len() == 6);
            assert("api_key"@.len() == 7);
            assert("api-key"@.len() == 7);
            assert("tenant"@.len() == 6);
            assert("namespace"@.len() == 9);
            assert("output"@.len() == 6);
            assert("server"@[0] == 's');
            assert("tenant"@[0] == 't');
            assert("output"@[0] == 'o');
            assert("api_key"@[3] == '_');
            assert("api-key"@[3] == '-');
        }
        if str_eq(key, "server") {
            self.server = Some(value);
            Ok(())
        } else if str_eq(key, "api_key") || str_eq(key, "api-key") {
            self.api_key = Some(value);
            Ok(())
        } else if str_eq(key, "tenant") {
            self.tenant = Some(value);
            Ok(())
        } else if str_eq(key, "namespace") {
            self.namespace = Some(value);
            Ok(())
        } else if str_eq(key, "output") {
            self.output = Some(value);
            Ok(())
        } else {
            let mut m = "Unknown key '".to_owned();
            m.append(key);
            m.append("'. Valid keys: server, api_key, tenant, namespace, output");
            Err(crate::errors::OrbitError::Input(m))
        }
    }
}

/// Whether two strings hold the same characters.
pub fn str_eq(a: &str, b: &str) -> (r: bool)
    ensures
        r == (a@ == b@),
{
    let alen = a.unicode_len();
    let blen = b.unicode_len();
    if alen != blen {
        return false;
    }
    let mut i: usize = 0;
    while i < alen
        invariant
            alen == a@.len(),
            blen == b@.len(),
            alen == blen,
            0 <= i <= alen,
            forall|j: int| 0 <= j < i ==> a@[j] == b@[j],
        decreases alen - i,
    {
        if a.get_char(i) != b.get_char(i) {
            return false;
        }
        i += 1;
    }
    proof {
        assert(a@ =~= b@);
    }
    true
}

} // verus!
