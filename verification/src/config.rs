//! Raw settings, their validation, and the validated configuration.

use vstd::prelude::*;
use vstd::utf8::encode_utf8;
use crate::error::ConfigError;
use crate::ice_url::{classify, is_ice_url, is_relay_url};

verus! {

/// Settings as the host sent them: nothing about them has been checked.
#[derive(Debug, PartialEq, Eq)]
pub struct RawSettings {
    /// The URLs of the ICE servers, in the order of preference.
    pub ice_servers: Vec<String>,
    /// Gather relayed candidates only.
    pub relay_only: bool,
}

/// What settings say, as mathematical values.
pub struct Settings {
    pub ice_servers: Seq<Seq<char>>,
    pub relay_only: bool,
}

impl Settings {
    /// The URL at `index` is a well-formed ICE server URL.
    pub open spec fn well_formed_at(self, index: int) -> bool {
        is_ice_url(encode_utf8(self.ice_servers[index]))
    }

    /// Every URL is well formed.
    pub open spec fn all_well_formed(self) -> bool {
        forall|i: int| 0 <= i < self.ice_servers.len() ==> #[trigger] self.well_formed_at(i)
    }

    /// `index` is where the first malformed URL stands.
    pub open spec fn first_malformed_at(self, index: int) -> bool {
        &&& 0 <= index < self.ice_servers.len()
        &&& !self.well_formed_at(index)
        &&& forall|i: int| 0 <= i < index ==> #[trigger] self.well_formed_at(i)
    }

    /// The URL at `index` names a relay server.
    pub open spec fn relay_at(self, index: int) -> bool {
        is_relay_url(encode_utf8(self.ice_servers[index]))
    }

    /// Some URL names a relay server.
    pub open spec fn names_relay(self) -> bool {
        exists|i: int| 0 <= i < self.ice_servers.len() && #[trigger] self.relay_at(i)
    }

    /// The settings ask for relayed candidates and name no relay server.
    pub open spec fn contradictory(self) -> bool {
        self.relay_only && !self.names_relay()
    }

    /// The settings pass validation.
    pub open spec fn valid(self) -> bool {
        self.all_well_formed() && !self.contradictory()
    }

    /// `error` is what validation reports of these settings: the first
    /// malformed URL, or, where every URL is well formed, the contradiction.
    pub open spec fn violated_by(self, error: ConfigError) -> bool {
        match error {
            ConfigError::MalformedIceServer { index } => self.first_malformed_at(index as int),
            ConfigError::RelayWithoutTurnServer => self.all_well_formed() && self.contradictory(),
        }
    }
}

impl View for RawSettings {
    type V = Settings;

    open spec fn view(&self) -> Settings {
        Settings {
            ice_servers: Seq::new(self.ice_servers@.len(), |i: int| self.ice_servers@[i]@),
            relay_only: self.relay_only,
        }
    }
}

/// Settings that passed validation. A configuration never changes.
#[derive(Debug, PartialEq, Eq)]
pub struct Configuration {
    ice_servers: Vec<String>,
    relay_only: bool,
}

impl View for Configuration {
    type V = Settings;

    closed spec fn view(&self) -> Settings {
        Settings {
            ice_servers: Seq::new(self.ice_servers@.len(), |i: int| self.ice_servers@[i]@),
            relay_only: self.relay_only,
        }
    }
}

impl Clone for Configuration {
    /// A copy that holds the same settings.
    fn clone(&self) -> (copy: Configuration)
        ensures
            copy@ == self@,
    {
        proof {
            use_type_invariant(self);
        }
        let ice_servers = self.ice_servers.clone();
        assert(ice_servers@ =~= self.ice_servers@);
        Configuration { ice_servers, relay_only: self.relay_only }
    }
}

impl Configuration {
    #[verifier::type_invariant]
    spec fn holds_valid_settings(&self) -> bool {
        self@.valid()
    }

    /// Checks raw settings and, where they pass, seals them as a
    /// configuration.
    ///
    /// The first malformed ICE server URL is reported with its index. Well
    /// formed settings that ask for relayed candidates only and name no `turn`
    /// or `turns` server are reported as contradictory.
    pub fn validate(raw: RawSettings) -> (result: Result<Configuration, ConfigError>)
        ensures
            result is Ok <==> raw@.valid(),
            match result {
                Ok(configuration) => configuration@ == raw@,
                Err(error) => raw@.violated_by(error),
            },
    {
        let mut names_relay = false;
        let mut i: usize = 0;
        while i < raw.ice_servers.len()
            invariant
                i <= raw.ice_servers@.len(),
                forall|j: int| 0 <= j < i ==> #[trigger] raw@.well_formed_at(j),
                names_relay <==> exists|j: int| 0 <= j < i && #[trigger] raw@.relay_at(j),
            decreases raw.ice_servers@.len() - i,
        {
            let scheme = classify(raw.ice_servers[i].as_str().as_bytes());
            match scheme {
                None => {
                    assert(!raw@.well_formed_at(i as int));
                    return Err(ConfigError::MalformedIceServer { index: i });
                },
                Some(scheme) => {
                    assert(raw@.well_formed_at(i as int));
                    if scheme.relays() {
                        assert(raw@.relay_at(i as int));
                        names_relay = true;
                    } else {
                        assert(!raw@.relay_at(i as int));
                    }
                },
            }
            i += 1;
        }
        assert(raw@.all_well_formed());
        assert(names_relay == raw@.names_relay());
        if raw.relay_only && !names_relay {
            return Err(ConfigError::RelayWithoutTurnServer);
        }
        assert(raw@.valid());
        Ok(Configuration { ice_servers: raw.ice_servers, relay_only: raw.relay_only })
    }

    /// The ICE server URLs, each of them well formed.
    pub fn ice_servers(&self) -> (urls: &Vec<String>)
        ensures
            self@.valid(),
            urls@.len() == self@.ice_servers.len(),
            forall|i: int| 0 <= i < urls@.len() ==> #[trigger] urls@[i]@ == self@.ice_servers[i],
    {
        proof {
            use_type_invariant(self);
        }
        &self.ice_servers
    }

    /// Whether only relayed candidates are gathered.
    pub fn relay_only(&self) -> (relay_only: bool)
        ensures
            self@.valid(),
            relay_only == self@.relay_only,
    {
        proof {
            use_type_invariant(self);
        }
        self.relay_only
    }
}

} // verus!
