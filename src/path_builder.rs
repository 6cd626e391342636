//! Derivation paths `purpose'/coin_type'/account'/change/index` and their builder.
use crate::account::{AccountError, Network};
use crate::text::{decimal, lemma_decimal_injective, push_char, push_decimal};
use std::str::FromStr;
use vstd::prelude::*;

verus! {

/// Child indices at or above this value carry the hardened bit.
pub const HARDENED_BIT: u32 = 0x8000_0000;

/// One step of a derivation path: an index below `HARDENED_BIT`, hardened or not.
#[derive(Debug, Clone, Copy, PartialEq, Eq, Structural)]
pub struct ChildNumber {
    pub index: u32,
    pub hardened: bool,
}

impl ChildNumber {
    pub open spec fn wf(self) -> bool {
        self.index < HARDENED_BIT
    }

    /// The 32-bit number that BIP-32 derives with.
    pub open spec fn raw(self) -> u32 {
        if self.hardened {
            (self.index + HARDENED_BIT) as u32
        } else {
            self.index
        }
    }

    pub open spec fn text(self) -> Seq<char> {
        decimal(self.index as nat) + if self.hardened {
            seq!['\'']
        } else {
            Seq::<char>::empty()
        }
    }

    pub fn from_hardened_idx(index: u32) -> (r: Result<ChildNumber, AccountError>)
        ensures
            index < HARDENED_BIT <==> r is Ok,
            r matches Ok(c) ==> c == (ChildNumber { index, hardened: true }),
            r matches Err(e) ==> e is Path,
    {
        if index < HARDENED_BIT {
            Ok(ChildNumber { index, hardened: true })
        } else {
            Err(AccountError::Path("child index out of range".to_string()))
        }
    }

    pub fn from_normal_idx(index: u32) -> (r: Result<ChildNumber, AccountError>)
        ensures
            index < HARDENED_BIT <==> r is Ok,
            r matches Ok(c) ==> c == (ChildNumber { index, hardened: false }),
            r matches Err(e) ==> e is Path,
    {
        if index < HARDENED_BIT {
            Ok(ChildNumber { index, hardened: false })
        } else {
            Err(AccountError::Path("child index out of range".to_string()))
        }
    }

    pub fn to_u32(&self) -> (r: u32)
        requires
            self.wf(),
        ensures
            r == self.raw(),
    {
        if self.hardened {
            self.index + HARDENED_BIT
        } else {
            self.index
        }
    }
}

/// The text of a path: its steps joined by `/`, without a leading `m`.
pub open spec fn path_text(p: Seq<ChildNumber>) -> Seq<char>
    decreases p.len(),
{
    if p.len() == 0 {
        Seq::empty()
    } else if p.len() == 1 {
        p[0].text()
    } else {
        path_text(p.drop_last()) + seq!['/'] + p.last().text()
    }
}

/// A sequence of child numbers from the master key down.
#[derive(Debug, Clone)]
pub struct DerivationPath {
    pub children: Vec<ChildNumber>,
}

impl View for DerivationPath {
    type V = Seq<ChildNumber>;

    open spec fn view(&self) -> Seq<ChildNumber> {
        self.children@
    }
}

impl DerivationPath {
    pub open spec fn wf(&self) -> bool {
        forall|i: int| 0 <= i < self@.len() ==> (#[trigger] self@[i]).wf()
    }

    pub fn to_string(&self) -> (r: String)
        ensures
            r@ == path_text(self@),
    {
        let mut s = String::new();
        let n = self.children.len();
        let mut i: usize = 0;
        while i < n
            invariant
                n == self@.len(),
                i <= n,
                s@ == path_text(self@.subrange(0, i as int)),
            decreases n - i,
        {
            let c = self.children[i];
            let ghost before = s@;
            let ghost next = self@.subrange(0, i + 1);
            assert(next.drop_last() =~= self@.subrange(0, i as int));
            if i > 0 {
                push_char(&mut s, '/');
            }
            push_decimal(&mut s, c.index);
            if c.hardened {
                push_char(&mut s, '\'');
            }
            assert(s@ =~= path_text(next));
            i = i + 1;
        }
        assert(self@.subrange(0, n as int) =~= self@);
        s
    }
}

/// The raw child numbers that BIP-32 path text (`m/` optional, `'` or `h` for
/// hardened steps) stands for, if it parses.
pub uninterp spec fn bip32_path_numbers(text: Seq<char>) -> Option<Seq<u32>>;

/// Relies on `bitcoin::bip32::DerivationPath::from_str` and `u32::from` on each
/// of its child numbers.
#[verifier::external_body]
fn parse_path_numbers(text: &str) -> (r: Option<Vec<u32>>)
    ensures
        r matches Some(v) ==> bip32_path_numbers(text@) == Some(v@),
        r is None ==> bip32_path_numbers(text@) is None,
{
    let path = match bitcoin::bip32::DerivationPath::from_str(text) {
        Ok(p) => p,
        Err(_) => return None,
    };
    let mut out = Vec::new();
    for c in path.as_ref() {
        out.push(u32::from(*c));
    }
    Some(out)
}

/// The step that a raw BIP-32 child number stands for.
pub open spec fn child_of_raw(n: u32) -> ChildNumber {
    if n >= HARDENED_BIT {
        ChildNumber { index: (n - HARDENED_BIT) as u32, hardened: true }
    } else {
        ChildNumber { index: n, hardened: false }
    }
}

impl DerivationPath {
    /// Reads path text such as `m/84'/0'/0'/0/1`.
    pub fn parse(text: &str) -> (r: Result<DerivationPath, AccountError>)
        ensures
            r is Ok <==> bip32_path_numbers(text@) is Some,
            r matches Ok(p) ==> (bip32_path_numbers(text@) matches Some(v) && p@ == v.map_values(
                |n: u32| child_of_raw(n),
            ) && p.wf()),
            r matches Err(e) ==> e is Path,
    {
        let numbers = match parse_path_numbers(text) {
            Some(v) => v,
            None => return Err(AccountError::Path("derivation path does not parse".to_string())),
        };
        let mut children: Vec<ChildNumber> = Vec::new();
        let mut i: usize = 0;
        while i < numbers.len()
            invariant
                i <= numbers@.len(),
                children@ =~= numbers@.subrange(0, i as int).map_values(|n: u32| child_of_raw(n)),
            decreases numbers@.len() - i,
        {
            let n = numbers[i];
            let c = if n >= HARDENED_BIT {
                ChildNumber { index: n - HARDENED_BIT, hardened: true }
            } else {
                ChildNumber { index: n, hardened: false }
            };
            children.push(c);
            i = i + 1;
        }
        assert(numbers@.subrange(0, i as int) =~= numbers@);
        Ok(DerivationPath { children })
    }
}

pub enum AddressType {
    Receiving,
    Spending,
}

/// The address form that a path's purpose selects.
#[derive(Debug, Clone, Copy, PartialEq, Eq, Structural)]
pub enum PathAddressKind {
    Legacy,
    SegWit,
    NativeSegWit,
}

/// The purpose number of each address kind.
pub open spec fn purpose_index(kind: PathAddressKind) -> u32 {
    match kind {
        PathAddressKind::Legacy => 44,
        PathAddressKind::SegWit => 49,
        PathAddressKind::NativeSegWit => 84,
    }
}

/// The address kind that a path selects by its first step, if any.
pub open spec fn path_address_kind(p: Seq<ChildNumber>) -> Option<PathAddressKind> {
    if p.len() == 0 || !p[0].hardened {
        None
    } else if p[0].index == 44 {
        Some(PathAddressKind::Legacy)
    } else if p[0].index == 49 {
        Some(PathAddressKind::SegWit)
    } else if p[0].index == 84 {
        Some(PathAddressKind::NativeSegWit)
    } else {
        None
    }
}

impl DerivationPath {
    /// Classifies the path by its purpose step.
    pub fn address_kind(&self) -> (r: Result<PathAddressKind, AccountError>)
        ensures
            match path_address_kind(self@) {
                Some(k) => r matches Ok(x) && x == k,
                None => r matches Err(e) && e is UnsupportedAddressKind,
            },
    {
        if self.children.len() == 0 || !self.children[0].hardened {
            return Err(AccountError::UnsupportedAddressKind);
        }
        let p = self.children[0].index;
        if p == 44 {
            Ok(PathAddressKind::Legacy)
        } else if p == 49 {
            Ok(PathAddressKind::SegWit)
        } else if p == 84 {
            Ok(PathAddressKind::NativeSegWit)
        } else {
            Err(AccountError::UnsupportedAddressKind)
        }
    }
}

pub enum SupportedNetworks {
    Bitcoin,
}

pub struct PathBuilder {
    pub network: SupportedNetworks,
    pub address_type: AddressType,
    pub address_kind: PathAddressKind,
    pub account_index: u32,
    pub change_index: u32,
    pub index: u32,
    pub network_kind: Network,
}

/// The coin type of a network: 0 for the main network, 1 for test networks.
pub open spec fn coin_index(kind: Network) -> u32 {
    match kind {
        Network::Mainnet => 0,
        Network::Testnet => 1,
    }
}

/// The path of the default builder: wrapped SegWit, main network, account,
/// change and index 0.
pub open spec fn default_steps() -> Seq<ChildNumber> {
    seq![
        ChildNumber { index: 49, hardened: true },
        ChildNumber { index: 0, hardened: true },
        ChildNumber { index: 0, hardened: true },
        ChildNumber { index: 0, hardened: false },
        ChildNumber { index: 0, hardened: false },
    ]
}

impl PathBuilder {
    /// The five steps that the builder's settings give.
    pub open spec fn steps(&self) -> Seq<ChildNumber> {
        seq![
            ChildNumber { index: purpose_index(self.address_kind), hardened: true },
            ChildNumber { index: coin_index(self.network_kind), hardened: true },
            ChildNumber { index: self.account_index, hardened: true },
            ChildNumber { index: self.change_index, hardened: false },
            ChildNumber { index: self.index, hardened: false },
        ]
    }

    /// Every index fits below the hardened bit.
    pub open spec fn indices_valid(&self) -> bool {
        self.account_index < HARDENED_BIT && self.change_index < HARDENED_BIT && self.index
            < HARDENED_BIT
    }

    /// A wrapped-SegWit receiving path on the main network: account, change and
    /// index 0.
    pub fn new() -> (r: PathBuilder)
        ensures
            r.address_kind == PathAddressKind::SegWit,
            r.network_kind == Network::Mainnet,
            r.account_index == 0,
            r.change_index == 0,
            r.index == 0,
            r.address_type is Receiving,
            r.steps() == default_steps(),
    {
        let r = PathBuilder {
            address_type: AddressType::Receiving,
            address_kind: PathAddressKind::SegWit,
            network: SupportedNetworks::Bitcoin,
            network_kind: Network::Mainnet,
            account_index: 0,
            change_index: 0,
            index: 0,
        };
        assert(r.steps() =~= default_steps());
        r
    }

    pub fn network(self, network: SupportedNetworks) -> (r: Self)
        ensures
            r.network == network,
            r.address_kind == self.address_kind,
            r.network_kind == self.network_kind,
            r.account_index == self.account_index,
            r.change_index == self.change_index,
            r.index == self.index,
    {
        PathBuilder { network, ..self }
    }

    pub fn network_kind(self, kind: Network) -> (r: Self)
        ensures
            r.network_kind == kind,
            r.address_kind == self.address_kind,
            r.account_index == self.account_index,
            r.change_index == self.change_index,
            r.index == self.index,
    {
        PathBuilder { network_kind: kind, ..self }
    }

    pub fn address_kind(self, kind: PathAddressKind) -> (r: Self)
        ensures
            r.address_kind == kind,
            r.network_kind == self.network_kind,
            r.account_index == self.account_index,
            r.change_index == self.change_index,
            r.index == self.index,
    {
        PathBuilder { address_kind: kind, ..self }
    }

    pub fn index(self, index: u32) -> (r: Self)
        ensures
            r.index == index,
            r.address_kind == self.address_kind,
            r.network_kind == self.network_kind,
            r.account_index == self.account_index,
            r.change_index == self.change_index,
    {
        PathBuilder { index, ..self }
    }

    pub fn account_index(self, index: u32) -> (r: Self)
        ensures
            r.account_index == index,
            r.address_kind == self.address_kind,
            r.network_kind == self.network_kind,
            r.change_index == self.change_index,
            r.index == self.index,
    {
        PathBuilder { account_index: index, ..self }
    }

    pub fn change_index(self, index: u32) -> (r: Self)
        ensures
            r.change_index == index,
            r.address_kind == self.address_kind,
            r.network_kind == self.network_kind,
            r.account_index == self.account_index,
            r.index == self.index,
    {
        PathBuilder { change_index: index, ..self }
    }

    pub fn coin_type(&self) -> (r: ChildNumber)
        ensures
            r == (ChildNumber { index: coin_index(self.network_kind), hardened: true }),
    {
        match self.network_kind {
            Network::Mainnet => ChildNumber { index: 0, hardened: true },
            Network::Testnet => ChildNumber { index: 1, hardened: true },
        }
    }

    fn purpose(&self) -> (r: ChildNumber)
        ensures
            r == (ChildNumber { index: purpose_index(self.address_kind), hardened: true }),
    {
        match self.address_kind {
            PathAddressKind::Legacy => ChildNumber { index: 44, hardened: true },
            PathAddressKind::SegWit => ChildNumber { index: 49, hardened: true },
            PathAddressKind::NativeSegWit => ChildNumber { index: 84, hardened: true },
        }
    }

    /// Builds the path; an account, change or address index at or above the
    /// hardened bit is rejected.
    pub fn build(&self) -> (r: Result<DerivationPath, AccountError>)
        ensures
            self.indices_valid() <==> r is Ok,
            r matches Ok(p) ==> p@ == self.steps() && p.wf(),
            r matches Err(e) ==> e is Path,
    {
        let purpose = self.purpose();
        let coin_type = self.coin_type();
        let account_index = ChildNumber::from_hardened_idx(self.account_index)?;
        let change_index = ChildNumber::from_normal_idx(self.change_index)?;
        let index = ChildNumber::from_normal_idx(self.index)?;
        let children = vec![purpose, coin_type, account_index, change_index, index];
        let p = DerivationPath { children };
        assert(p@ =~= self.steps());
        Ok(p)
    }
}

/// A built path reads `purpose'/coin_type'/account'/change/index`.
pub proof fn lemma_built_path_text(b: PathBuilder)
    ensures
        path_text(b.steps()) == decimal(purpose_index(b.address_kind) as nat) + seq!['\'', '/']
            + decimal(coin_index(b.network_kind) as nat) + seq!['\'', '/'] + decimal(
            b.account_index as nat,
        ) + seq!['\'', '/'] + decimal(b.change_index as nat) + seq!['/'] + decimal(
            b.index as nat,
        ),
{
    let s = b.steps();
    assert(s.drop_last().drop_last().drop_last().drop_last() =~= seq![s[0]]);
    assert(s.drop_last().drop_last().drop_last() =~= seq![s[0], s[1]]);
    assert(s.drop_last().drop_last() =~= seq![s[0], s[1], s[2]]);
    assert(s.drop_last() =~= seq![s[0], s[1], s[2], s[3]]);
    assert(path_text(seq![s[0]]) == s[0].text());
    assert(path_text(seq![s[0], s[1]]) == s[0].text() + seq!['/'] + s[1].text());
    assert(path_text(seq![s[0], s[1], s[2]]) == path_text(seq![s[0], s[1]]) + seq!['/']
        + s[2].text());
    assert(path_text(seq![s[0], s[1], s[2], s[3]]) == path_text(seq![s[0], s[1], s[2]])
        + seq!['/'] + s[3].text());
    assert(path_text(s) =~= decimal(purpose_index(b.address_kind) as nat) + seq!['\'', '/']
        + decimal(coin_index(b.network_kind) as nat) + seq!['\'', '/'] + decimal(
        b.account_index as nat,
    ) + seq!['\'', '/'] + decimal(b.change_index as nat) + seq!['/'] + decimal(b.index as nat));
}

/// The default builder's path reads `49'/0'/0'/0/0`.
pub proof fn lemma_default_path_text()
    ensures
        path_text(default_steps()) == "49'/0'/0'/0/0"@,
{
    let b = PathBuilder {
        network: SupportedNetworks::Bitcoin,
        address_type: AddressType::Receiving,
        address_kind: PathAddressKind::SegWit,
        account_index: 0,
        change_index: 0,
        index: 0,
        network_kind: Network::Mainnet,
    };
    assert(b.steps() =~= default_steps());
    lemma_built_path_text(b);
    assert(decimal(49) =~= seq!['4', '9']) by {
        assert(decimal(4) == seq!['4']);
    }
    assert(decimal(0) =~= seq!['0']);
    reveal_strlit("49'/0'/0'/0/0");
    assert(path_text(default_steps()) =~= "49'/0'/0'/0/0"@);
}

/// Two paths built with the same settings but for the address index have
/// different texts.
pub proof fn lemma_distinct_index_paths(a: PathBuilder, b: PathBuilder)
    requires
        a.address_kind == b.address_kind,
        a.network_kind == b.network_kind,
        a.account_index == b.account_index,
        a.change_index == b.change_index,
        a.index != b.index,
    ensures
        path_text(a.steps()) != path_text(b.steps()),
{
    lemma_built_path_text(a);
    lemma_built_path_text(b);
    let prefix = decimal(purpose_index(a.address_kind) as nat) + seq!['\'', '/'] + decimal(
        coin_index(a.network_kind) as nat,
    ) + seq!['\'', '/'] + decimal(a.account_index as nat) + seq!['\'', '/'] + decimal(
        a.change_index as nat,
    ) + seq!['/'];
    assert(path_text(a.steps()) =~= prefix + decimal(a.index as nat));
    assert(path_text(b.steps()) =~= prefix + decimal(b.index as nat));
    if path_text(a.steps()) == path_text(b.steps()) {
        let n = prefix.len() as int;
        assert(decimal(a.index as nat) =~= path_text(a.steps()).subrange(n, path_text(a.steps()).len() as int));
        assert(decimal(b.index as nat) =~= path_text(b.steps()).subrange(n, path_text(b.steps()).len() as int));
        lemma_decimal_injective(a.index as nat, b.index as nat);
    }
}

} // verus!
