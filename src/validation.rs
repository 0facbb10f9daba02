//! Requests to the external configuration validator: for each projected
//! option, the version it is meant for, the kind of option, its name and its
//! value text.

use crate::config::ZooKeeperConfiguration;
use crate::version::ZooKeeperVersion;
use vstd::prelude::*;

verus! {

/// Where an option is set on the service.
#[derive(Clone, Copy, Debug, PartialEq, Eq, Structural)]
pub enum OptionKind {
    /// A command-line argument.
    Cli,
    /// An entry of the configuration file.
    Conf,
    /// An environment variable.
    Env,
}

/// One option handed to the validator.
#[derive(Clone, Debug, PartialEq, Eq)]
pub struct ValidationRequest {
    /// Canonical text of the version the option is meant for.
    pub version: String,
    pub kind: OptionKind,
    pub key: String,
    pub value: String,
}

/// Whether `q` asks about the configuration-file option `entry` for version `v`.
pub open spec fn request_matches(q: ValidationRequest, v: ZooKeeperVersion, entry: (Seq<char>, Seq<char>)) -> bool {
    &&& q.version@ == v.spec_text()
    &&& q.kind == OptionKind::Conf
    &&& q.key@ == entry.0
    &&& q.value@ == entry.1
}

/// The requests that validate `config` for `version`: one for each projected
/// entry, in the same order, each a configuration-file option.
pub fn validation_requests(version: &ZooKeeperVersion, config: &ZooKeeperConfiguration) -> (r: Vec<ValidationRequest>)
    ensures
        r@.len() == config.spec_entries().len(),
        forall|i: int| 0 <= i < r@.len() ==> request_matches(#[trigger] r@[i], *version, config.spec_entries()[i]),
{
    let entries = config.project();
    let text = version.to_string();
    let mut r: Vec<ValidationRequest> = Vec::new();
    let mut i: usize = 0;
    while i < entries.len()
        invariant
            i <= entries@.len(),
            entries.deep_view() == config.spec_entries(),
            text@ == version.spec_text(),
            r@.len() == i,
            forall|k: int| 0 <= k < i ==> request_matches(#[trigger] r@[k], *version, config.spec_entries()[k]),
        decreases entries@.len() - i,
    {
        let entry = &entries[i];
        let q = ValidationRequest {
            version: text.clone(),
            kind: OptionKind::Conf,
            key: entry.0.clone(),
            value: entry.1.clone(),
        };
        assert(entries.deep_view()[i as int] == (entry.0@, entry.1@));
        r.push(q);
        i = i + 1;
    }
    r
}

} // verus!
