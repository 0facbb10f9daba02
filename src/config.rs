//! Typed tuning options of a ZooKeeper ensemble, and their projection onto
//! the flat option-name to text form that the configuration validator reads.

use crate::decimal::{decimal_text, u32_to_text};
use vstd::prelude::*;

verus! {

/// Tuning options of the coordination service. An absent option means the
/// service's own default; nothing here ever fills one in.
#[derive(Clone, Debug, PartialEq, Eq)]
pub struct ZooKeeperConfiguration {
    pub client_port: Option<u32>,
    pub data_dir: Option<String>,
    pub init_limit: Option<u32>,
    pub sync_limit: Option<u32>,
    pub tick_time: Option<u32>,
}

/// Option name of the client port.
pub open spec fn client_port_key() -> Seq<char> {
    "clientPort"@
}

/// Option name of the data directory.
pub open spec fn data_dir_key() -> Seq<char> {
    "dataDir"@
}

/// Option name of the init limit.
pub open spec fn init_limit_key() -> Seq<char> {
    "initLimit"@
}

/// Option name of the sync limit.
pub open spec fn sync_limit_key() -> Seq<char> {
    "syncLimit"@
}

/// Option name of the tick time.
pub open spec fn tick_time_key() -> Seq<char> {
    "tickTime"@
}

/// The entry of a numeric option: none when it is absent, else its name and
/// its base-10 text.
pub open spec fn number_entry(key: Seq<char>, value: Option<u32>) -> Seq<(Seq<char>, Seq<char>)> {
    match value {
        Some(n) => seq![(key, decimal_text(n as nat))],
        None => seq![],
    }
}

/// The entry of a text option: none when it is absent, else its name and the
/// text as it stands.
pub open spec fn text_entry(key: Seq<char>, value: Option<String>) -> Seq<(Seq<char>, Seq<char>)> {
    match value {
        Some(s) => seq![(key, s@)],
        None => seq![],
    }
}

/// How many of the options are present.
pub open spec fn present_count(c: ZooKeeperConfiguration) -> nat {
    (if c.client_port is Some { 1nat } else { 0nat }) + (if c.data_dir is Some { 1nat } else { 0nat })
        + (if c.init_limit is Some { 1nat } else { 0nat }) + (if c.sync_limit is Some { 1nat } else { 0nat })
        + (if c.tick_time is Some { 1nat } else { 0nat })
}

impl ZooKeeperConfiguration {
    /// The projected entries, one per present option, in field order.
    pub open spec fn spec_entries(self) -> Seq<(Seq<char>, Seq<char>)> {
        number_entry(client_port_key(), self.client_port) + text_entry(data_dir_key(), self.data_dir)
            + number_entry(init_limit_key(), self.init_limit) + number_entry(sync_limit_key(), self.sync_limit)
            + number_entry(tick_time_key(), self.tick_time)
    }

    /// The options as (option name, value text) pairs: one pair for each
    /// present option, integers in base 10 and the data directory verbatim.
    pub fn project(&self) -> (r: Vec<(String, String)>)
        ensures
            r.deep_view() == self.spec_entries(),
    {
        let mut r: Vec<(String, String)> = Vec::new();
        let ghost mut expected: Seq<(Seq<char>, Seq<char>)> = seq![];
        assert(r.deep_view() =~= expected);

        if let Some(n) = self.client_port {
            r.push((String::from_str("clientPort"), u32_to_text(n)));
        }
        proof {
            expected = expected + number_entry(client_port_key(), self.client_port);
        }
        assert(r.deep_view() =~= expected);

        match &self.data_dir {
            Some(dir) => {
                r.push((String::from_str("dataDir"), dir.clone()));
            },
            None => {},
        }
        proof {
            expected = expected + text_entry(data_dir_key(), self.data_dir);
        }
        assert(r.deep_view() =~= expected);

        if let Some(n) = self.init_limit {
            r.push((String::from_str("initLimit"), u32_to_text(n)));
        }
        proof {
            expected = expected + number_entry(init_limit_key(), self.init_limit);
        }
        assert(r.deep_view() =~= expected);

        if let Some(n) = self.sync_limit {
            r.push((String::from_str("syncLimit"), u32_to_text(n)));
        }
        proof {
            expected = expected + number_entry(sync_limit_key(), self.sync_limit);
        }
        assert(r.deep_view() =~= expected);

        if let Some(n) = self.tick_time {
            r.push((String::from_str("tickTime"), u32_to_text(n)));
        }
        proof {
            expected = expected + number_entry(tick_time_key(), self.tick_time);
        }
        assert(r.deep_view() =~= expected);
        r
    }
}

/// Projection gives exactly one entry for each present option and none for
/// an absent one: as many entries as present options, no option name twice,
/// and an entry under an option's name exactly when that option is present.
pub proof fn lemma_one_entry_per_present_option(c: ZooKeeperConfiguration)
    ensures
        c.spec_entries().len() == present_count(c),
        forall|i: int, j: int|
            0 <= i < j < c.spec_entries().len() ==> #[trigger] c.spec_entries()[i].0 != #[trigger] c.spec_entries()[j].0,
        (exists|i: int| 0 <= i < c.spec_entries().len() && c.spec_entries()[i].0 == client_port_key()) <==> c.client_port is Some,
        (exists|i: int| 0 <= i < c.spec_entries().len() && c.spec_entries()[i].0 == data_dir_key()) <==> c.data_dir is Some,
        (exists|i: int| 0 <= i < c.spec_entries().len() && c.spec_entries()[i].0 == init_limit_key()) <==> c.init_limit is Some,
        (exists|i: int| 0 <= i < c.spec_entries().len() && c.spec_entries()[i].0 == sync_limit_key()) <==> c.sync_limit is Some,
        (exists|i: int| 0 <= i < c.spec_entries().len() && c.spec_entries()[i].0 == tick_time_key()) <==> c.tick_time is Some,
{
    reveal_strlit("clientPort");
    reveal_strlit("dataDir");
    reveal_strlit("initLimit");
    reveal_strlit("syncLimit");
    reveal_strlit("tickTime");
    let e = c.spec_entries();
    // Option names start with distinct letters, rising in field order.
    let keys = seq![client_port_key(), data_dir_key(), init_limit_key(), sync_limit_key(), tick_time_key()];
    assert(keys[0][0] == 'c' && keys[1][0] == 'd' && keys[2][0] == 'i' && keys[3][0] == 's' && keys[4][0] == 't');
    assert forall|i: int, j: int| 0 <= i < j < e.len() implies (e[i].0[0] as u32) < (e[j].0[0] as u32) by {
    }
    assert forall|i: int, j: int| 0 <= i < j < e.len() implies #[trigger] e[i].0 != #[trigger] e[j].0 by {
        assert((e[i].0[0] as u32) < (e[j].0[0] as u32));
    }
    // Where each option's entry stands, when it is present.
    let p1 = number_entry(client_port_key(), c.client_port).len() as int;
    let p2 = p1 + text_entry(data_dir_key(), c.data_dir).len();
    let p3 = p2 + number_entry(init_limit_key(), c.init_limit).len();
    let p4 = p3 + number_entry(sync_limit_key(), c.sync_limit).len();
    if c.client_port is Some {
        assert(e[0].0 == client_port_key());
    }
    if c.data_dir is Some {
        assert(e[p1].0 == data_dir_key());
    }
    if c.init_limit is Some {
        assert(e[p2].0 == init_limit_key());
    }
    if c.sync_limit is Some {
        assert(e[p3].0 == sync_limit_key());
    }
    if c.tick_time is Some {
        assert(e[p4].0 == tick_time_key());
    }
}

} // verus!
