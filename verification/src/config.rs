//! The server's configuration: the command-line parameters and the
//! read-only configuration built from them at startup.

use vstd::prelude::*;
use crate::auth::{spec_first_invalid_user, spec_table_of, strings_view, CredentialTable};
use crate::errors::ConfigError;
use crate::location::ReverseProxyConfig;
use crate::serving::{cidr_of, parse_cidr, CidrNetwork, ServingControl};

verus! {

/// The command-line parameters, as the argument parser delivers them.
#[derive(Clone, Debug)]
pub struct Param {
    pub log_dir: String,
    pub log_file: String,
    pub port: Vec<u16>,
    pub cert: String,
    pub key: String,
    pub users: Vec<String>,
    pub web_content_path: String,
    pub referer_keywords_to_self: Vec<String>,
    pub never_ask_for_auth: bool,
    pub prohibit_serving: bool,
    pub allow_serving_network: Vec<String>,
    pub over_tls: bool,
    pub reverse_proxy_config_file: Option<String>,
    pub enable_github_proxy: bool,
    pub append_upstream_url: Vec<String>,
}

/// The read-only configuration the request pipeline consults.
pub struct Config {
    pub cert: String,
    pub key: String,
    pub basic_auth: CredentialTable,
    pub web_content_path: String,
    pub referer_keywords_to_self: Vec<String>,
    pub never_ask_for_auth: bool,
    pub serving_control: ServingControl,
    pub over_tls: bool,
    pub port: Vec<u16>,
    pub reverse_proxy_config: ReverseProxyConfig,
}

impl Config {
    pub open spec fn wf(self) -> bool {
        self.serving_control.wf()
    }
}

/// The networks the (all parsable) CIDR texts parse to, in order. An
/// unparsable text adds nothing; the builder rejects it before this point.
pub open spec fn spec_networks_of(ss: Seq<Seq<char>>) -> Seq<CidrNetwork>
    decreases ss.len(),
{
    if ss.len() == 0 {
        Seq::empty()
    } else {
        let rest = spec_networks_of(ss.drop_last());
        match cidr_of(ss.last()) {
            Some(n) => rest.push(n),
            None => rest,
        }
    }
}

/// The first allow-list entry that does not parse as a CIDR network, if
/// any: the builder refuses the whole configuration on it.
pub open spec fn spec_first_invalid_cidr(ss: Seq<Seq<char>>) -> Option<Seq<char>>
    decreases ss.len(),
{
    if ss.len() == 0 {
        None
    } else if cidr_of(ss[0]) is None {
        Some(ss[0])
    } else {
        spec_first_invalid_cidr(ss.drop_first())
    }
}

impl Config {
    /// Build the configuration: the credential table from the `user:pass`
    /// specifications, and the serving policy from the prohibition flag and
    /// the CIDR allow-list. A malformed user specification or an unparsable
    /// CIDR text is a fatal configuration error. Networks are parsed only
    /// when serving is not prohibited, since prohibition makes the
    /// allow-list irrelevant.
    pub fn from_param(param: Param, reverse_proxy_config: ReverseProxyConfig) -> (r: Result<
        Config,
        ConfigError,
    >)
        ensures
            (match spec_first_invalid_user(strings_view(param.users@)) {
                Some(bad) => (r matches Err(e) && e matches ConfigError::InvalidUser(s) && s@
                    == bad),
                None => (match (if param.prohibit_serving {
                    Option::<Seq<char>>::None
                } else {
                    spec_first_invalid_cidr(strings_view(param.allow_serving_network@))
                }) {
                    Some(bad) => (r matches Err(e) && e matches ConfigError::InvalidCidr(s) && s@
                        == bad),
                    None => (r matches Ok(cfg) && cfg.basic_auth@ == spec_table_of(
                        strings_view(param.users@),
                    ) && cfg.never_ask_for_auth == param.never_ask_for_auth && cfg.over_tls
                        == param.over_tls && cfg.serving_control.prohibit_serving
                        == param.prohibit_serving && (param.prohibit_serving
                        ==> cfg.serving_control.allowed_networks@.len() == 0) && (
                    !param.prohibit_serving ==> cfg.serving_control.allowed_networks@
                        == spec_networks_of(strings_view(param.allow_serving_network@))) && cfg.wf()
                        && cfg.cert == param.cert && cfg.key == param.key && cfg.web_content_path
                        == param.web_content_path && cfg.referer_keywords_to_self
                        == param.referer_keywords_to_self && cfg.port == param.port
                        && cfg.reverse_proxy_config == reverse_proxy_config),
                }),
            }),
    {
        let basic_auth = match CredentialTable::build(&param.users) {
            Ok(t) => t,
            Err(e) => {
                return Err(e);
            },
        };
        let mut allowed_networks: Vec<CidrNetwork> = Vec::new();
        if !param.prohibit_serving {
            let n = param.allow_serving_network.len();
            let mut i: usize = 0;
            proof {
                assert(strings_view(param.allow_serving_network@).subrange(0, 0)
                    =~= Seq::<Seq<char>>::empty());
                assert(strings_view(param.allow_serving_network@).skip(0) =~= strings_view(
                    param.allow_serving_network@,
                ));
            }
            while i < n
                invariant
                    0 <= i <= n,
                    n == param.allow_serving_network@.len(),
                    !param.prohibit_serving,
                    spec_first_invalid_user(strings_view(param.users@)) is None,
                    allowed_networks@ == spec_networks_of(
                        strings_view(param.allow_serving_network@).subrange(0, i as int),
                    ),
                    spec_first_invalid_cidr(strings_view(param.allow_serving_network@))
                        == spec_first_invalid_cidr(
                        strings_view(param.allow_serving_network@).skip(i as int),
                    ),
                    forall|j: int|
                        0 <= j < allowed_networks@.len() ==> (
                        #[trigger] allowed_networks@[j]).wf(),
                decreases n - i,
            {
                proof {
                    assert(strings_view(param.allow_serving_network@).subrange(
                        0,
                        i + 1,
                    ).drop_last() =~= strings_view(param.allow_serving_network@).subrange(
                        0,
                        i as int,
                    ));
                    assert(strings_view(param.allow_serving_network@).subrange(0, i + 1).last()
                        == param.allow_serving_network@[i as int]@);
                    assert(strings_view(param.allow_serving_network@).skip(i as int)[0]
                        == strings_view(param.allow_serving_network@)[i as int]);
                    assert(strings_view(param.allow_serving_network@).skip(i as int).drop_first()
                        =~= strings_view(param.allow_serving_network@).skip(i + 1));
                }
                match parse_cidr(param.allow_serving_network[i].as_str()) {
                    Some(network) => {
                        allowed_networks.push(network);
                    },
                    None => {
                        return Err(ConfigError::InvalidCidr(param.allow_serving_network[i].clone()));
                    },
                }
                i = i + 1;
            }
            proof {
                assert(strings_view(param.allow_serving_network@).subrange(0, n as int)
                    =~= strings_view(param.allow_serving_network@));
                assert(strings_view(param.allow_serving_network@).skip(n as int)
                    =~= Seq::<Seq<char>>::empty());
            }
        }
        Ok(Config {
            cert: param.cert,
            key: param.key,
            basic_auth,
            web_content_path: param.web_content_path,
            referer_keywords_to_self: param.referer_keywords_to_self,
            never_ask_for_auth: param.never_ask_for_auth,
            serving_control: ServingControl {
                prohibit_serving: param.prohibit_serving,
                allowed_networks,
            },
            over_tls: param.over_tls,
            port: param.port,
            reverse_proxy_config,
        })
    }
}

} // verus!
