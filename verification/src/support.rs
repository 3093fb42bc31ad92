//! Node configuration: the role a node runs as, the chain it connects
//! to, and the signing account it uses.

use vstd::prelude::*;
use vstd::string::StringExecFns;

verus! {

/// The role this node runs as.
#[derive(PartialEq, Eq, Structural, Debug, Clone, Copy)]
pub enum Role {
    /// Announces files and serves their content to providers.
    User,
    /// Volunteers for announced files and stores their content.
    BspProvider,
    /// An alternate provider role, not implemented.
    MspProvider,
}

/// The well-known development accounts transactions can be signed with.
#[derive(PartialEq, Eq, Structural, Debug, Clone, Copy)]
pub enum DevAccounts {
    Alice,
    Bob,
    Charlie,
    Dave,
}

impl DevAccounts {
    /// The derivation string the signing pair is created from.
    pub fn signer_uri(&self) -> (r: String)
        ensures
            self == DevAccounts::Alice ==> r@ == "//Alice"@,
            self == DevAccounts::Bob ==> r@ == "//Bob"@,
            self == DevAccounts::Charlie ==> r@ == "//Charlie"@,
            self == DevAccounts::Dave ==> r@ == "//Dave"@,
    {
        match self {
            DevAccounts::Alice => String::from_str("//Alice"),
            DevAccounts::Bob => String::from_str("//Bob"),
            DevAccounts::Charlie => String::from_str("//Charlie"),
            DevAccounts::Dave => String::from_str("//Dave"),
        }
    }
}

/// The chains this client knows how to reach.
#[derive(PartialEq, Eq, Structural, Debug, Clone, Copy)]
pub enum SupportedRuntime {
    /// A node on the local host.
    Local,
    /// A node reached by its container name.
    Compose,
}

/// An SS58 address-format prefix.
pub type ChainPrefix = u16;

impl SupportedRuntime {
    /// The websocket address the chain is reached at.
    pub fn ws_address(&self) -> (r: String)
        ensures
            self == SupportedRuntime::Local ==> r@ == "ws://127.0.0.1:9944"@,
            self == SupportedRuntime::Compose ==> r@ == "ws://storagehub:9944"@,
    {
        match self {
            SupportedRuntime::Local => String::from_str("ws://127.0.0.1:9944"),
            SupportedRuntime::Compose => String::from_str("ws://storagehub:9944"),
        }
    }

    /// The chain's display name.
    pub fn name(&self) -> (r: String)
        ensures
            self == SupportedRuntime::Local ==> r@ == "Local"@,
            self == SupportedRuntime::Compose ==> r@ == "Compose"@,
    {
        match self {
            SupportedRuntime::Local => String::from_str("Local"),
            SupportedRuntime::Compose => String::from_str("Compose"),
        }
    }

    /// The runtime a chain prefix selects; only the default prefix is
    /// supported.
    pub fn from_chain_prefix(v: ChainPrefix) -> (r: Option<SupportedRuntime>)
        ensures
            v == 0 ==> r == Some(SupportedRuntime::Local),
            v != 0 ==> r is None,
    {
        if v == 0 {
            Some(SupportedRuntime::Local)
        } else {
            None
        }
    }

    /// The runtime a chain token symbol selects; only the local chain's
    /// unit is supported.
    pub fn from_token_symbol(v: &Vec<u8>) -> (r: Option<SupportedRuntime>)
        ensures
            v@ == "shDOT"@.map_values(|c: char| c as u8) ==> r == Some(SupportedRuntime::Local),
            v@ != "shDOT"@.map_values(|c: char| c as u8) ==> r is None,
    {
        proof {
            reveal_strlit("shDOT");
        }
        if v.len() == 5 && v[0] == 115 && v[1] == 104 && v[2] == 68 && v[3] == 79 && v[4] == 84 {
            proof {
                assert(v@ =~= "shDOT"@.map_values(|c: char| c as u8));
            }
            Some(SupportedRuntime::Local)
        } else {
            proof {
                if v@.len() == "shDOT"@.map_values(|c: char| c as u8).len() {
                    assert(v@ != "shDOT"@.map_values(|c: char| c as u8)) by {
                        if v@ == "shDOT"@.map_values(|c: char| c as u8) {
                            assert(v@[0] == 115 && v@[1] == 104 && v@[2] == 68 && v@[3] == 79
                                && v@[4] == 84);
                        }
                    }
                }
            }
            None
        }
    }
}

/// The decimal digit a byte spells, if any.
pub open spec fn is_digit(c: u8) -> bool {
    48 <= c <= 57
}

/// The number a string of decimal digits spells.
pub open spec fn dec_value(s: Seq<u8>) -> int
    decreases s.len(),
{
    if s.len() == 0 {
        0
    } else {
        dec_value(s.drop_last()) * 10 + (s.last() - 48)
    }
}

/// A digit string spells a number at least zero.
proof fn lemma_dec_value_nonneg(s: Seq<u8>)
    requires
        forall|k: int| 0 <= k < s.len() ==> is_digit(s[k]),
    ensures
        dec_value(s) >= 0,
    decreases s.len(),
{
    if s.len() > 0 {
        lemma_dec_value_nonneg(s.drop_last());
    }
}

/// Extending a digit string never shrinks the number it spells.
proof fn lemma_dec_value_grows(s: Seq<u8>, i: int, j: int)
    requires
        forall|k: int| 0 <= k < s.len() ==> is_digit(s[k]),
        0 <= i <= j <= s.len(),
    ensures
        dec_value(s.take(i)) <= dec_value(s.take(j)),
    decreases j - i,
{
    if i < j {
        lemma_dec_value_grows(s, i, j - 1);
        let t = s.take(j);
        assert(t.drop_last() =~= s.take(j - 1));
        assert(forall|k: int| 0 <= k < t.len() ==> is_digit(t[k]));
        lemma_dec_value_nonneg(t.drop_last());
        assert(dec_value(t) == dec_value(t.drop_last()) * 10 + (t.last() - 48));
        assert(dec_value(t.drop_last()) * 10 >= dec_value(t.drop_last())) by (nonlinear_arith)
            requires dec_value(t.drop_last()) >= 0;
    }
}

/// Reads an SS58 chain prefix from its decimal spelling: the number the
/// digits spell, if every byte is a digit, at least one is there, and
/// the number fits the prefix type.
pub fn parse_chain_prefix(s: &Vec<u8>) -> (r: Option<ChainPrefix>)
    ensures
        match r {
            Some(v) => s@.len() > 0 && (forall|k: int| 0 <= k < s@.len() ==> is_digit(s@[k]))
                && v == dec_value(s@),
            None => s@.len() == 0 || (exists|k: int| 0 <= k < s@.len() && !is_digit(s@[k]))
                || dec_value(s@) > u16::MAX,
        },
{
    if s.len() == 0 {
        return None;
    }
    let mut acc: u32 = 0;
    let mut i: usize = 0;
    while i < s.len()
        invariant
            0 < s@.len(),
            i <= s@.len(),
            forall|k: int| 0 <= k < i ==> is_digit(s@[k]),
            acc == dec_value(s@.take(i as int)),
            acc <= u16::MAX,
        decreases s@.len() - i,
    {
        let c = s[i];
        if c < 48 || c > 57 {
            return None;
        }
        let digit = (c - 48) as u32;
        let next = acc * 10 + digit;
        proof {
            assert(s@.take(i + 1).drop_last() =~= s@.take(i as int));
            assert(next == dec_value(s@.take(i + 1)));
        }
        if next > u16::MAX as u32 {
            proof {
                if forall|k: int| 0 <= k < s@.len() ==> is_digit(s@[k]) {
                    lemma_dec_value_grows(s@, i + 1, s@.len() as int);
                    assert(s@.take(s@.len() as int) =~= s@);
                }
            }
            return None;
        }
        acc = next;
        i += 1;
    }
    proof {
        assert(s@.take(s@.len() as int) =~= s@);
    }
    Some(acc as u16)
}

/// The 32-byte keypair seed a fixed secret byte expands to: the byte,
/// followed by zeroes.
pub fn key_seed_bytes(seed: u8) -> (r: Vec<u8>)
    ensures
        r@.len() == 32,
        r@[0] == seed,
        forall|k: int| 1 <= k < 32 ==> r@[k] == 0,
{
    let mut bytes: Vec<u8> = Vec::with_capacity(32);
    bytes.push(seed);
    let mut i: usize = 1;
    while i < 32
        invariant
            1 <= i <= 32,
            bytes@.len() == i,
            bytes@[0] == seed,
            forall|k: int| 1 <= k < i ==> bytes@[k] == 0,
        decreases 32 - i,
    {
        bytes.push(0);
        i += 1;
    }
    bytes
}

/// Options the light client is started with.
pub struct LightClientOptions {
    /// The role this node runs as.
    pub run_as: Role,
    /// The chain to connect to.
    pub chain: SupportedRuntime,
    /// The development account transactions are signed with.
    pub dev_account: DevAccounts,
    /// Overrides the chain's default websocket address.
    pub ws_address: Option<String>,
    /// Where announced files are read from.
    pub upload_path: String,
    /// Where fetched files are written to.
    pub download_path: String,
}

impl LightClientOptions {
    /// The websocket address to connect to: the override where one is
    /// set, the chain's default otherwise.
    pub fn effective_ws_address(&self) -> (r: String)
        ensures
            match self.ws_address {
                Some(ref w) => r@ == w@,
                None => ({
                    &&& self.chain == SupportedRuntime::Local ==> r@ == "ws://127.0.0.1:9944"@
                    &&& self.chain == SupportedRuntime::Compose ==> r@ == "ws://storagehub:9944"@
                }),
            },
    {
        match &self.ws_address {
            Some(w) => {
                let mut out = String::new();
                out.append(w.as_str());
                out
            },
            None => self.chain.ws_address(),
        }
    }
}

} // verus!
