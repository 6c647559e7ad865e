use vstd::prelude::*;

verus! {

/// A short network name and the endpoint it stands for.
pub struct NetworkAlias {
    pub name: String,
    pub endpoint: String,
}

impl View for NetworkAlias {
    type V = (Seq<char>, Seq<char>);

    open spec fn view(&self) -> (Seq<char>, Seq<char>) {
        (self.name@, self.endpoint@)
    }
}

/// The endpoint of the first entry named `flag`, or `flag` itself where none is.
pub open spec fn lookup_alias(table: Seq<(Seq<char>, Seq<char>)>, flag: Seq<char>) -> Seq<char>
    decreases table.len(),
{
    if table.len() == 0 {
        flag
    } else if table[0].0 == flag {
        table[0].1
    } else {
        lookup_alias(table.drop_first(), flag)
    }
}

pub open spec fn table_view(table: Seq<NetworkAlias>) -> Seq<(Seq<char>, Seq<char>)> {
    table.map_values(|a: NetworkAlias| a@)
}

/// The endpoint used when no network is given.
pub const DEFAULT_ENDPOINT: &'static str = "http://localhost:8545";

pub const MAINNET_ENDPOINT: &'static str = "https://mainnet.infura.io/v3/76fb6c10f1584483a45a0a28e91b07ad";

pub const ROPSTEN_ENDPOINT: &'static str = "https://ropsten.infura.io/v3/76fb6c10f1584483a45a0a28e91b07ad";

pub const RINKEBY_ENDPOINT: &'static str = "https://rinkeby.infura.io/v3/76fb6c10f1584483a45a0a28e91b07ad";

pub const GOERLI_ENDPOINT: &'static str = "https://goerli.infura.io/v3/76fb6c10f1584483a45a0a28e91b07ad";

pub const KOVAN_ENDPOINT: &'static str = "https://kovan.infura.io/v3/76fb6c10f1584483a45a0a28e91b07ad";

/// The built-in aliases of the public networks.
pub open spec fn known_networks() -> Seq<(Seq<char>, Seq<char>)> {
    seq![
        ("mainnet"@, MAINNET_ENDPOINT@),
        ("ropsten"@, ROPSTEN_ENDPOINT@),
        ("rinkeby"@, RINKEBY_ENDPOINT@),
        ("goerli"@, GOERLI_ENDPOINT@),
        ("kovan"@, KOVAN_ENDPOINT@),
    ]
}

/// What the network flag resolves to: a built-in alias gives its endpoint, anything
/// else is taken as a literal endpoint.
pub open spec fn resolve_network(flag: Seq<char>) -> Seq<char> {
    if flag == "mainnet"@ {
        MAINNET_ENDPOINT@
    } else if flag == "ropsten"@ {
        ROPSTEN_ENDPOINT@
    } else if flag == "rinkeby"@ {
        RINKEBY_ENDPOINT@
    } else if flag == "goerli"@ {
        GOERLI_ENDPOINT@
    } else if flag == "kovan"@ {
        KOVAN_ENDPOINT@
    } else {
        flag
    }
}

proof fn lemma_known_networks(flag: Seq<char>)
    ensures
        lookup_alias(known_networks(), flag) == resolve_network(flag),
{
    let t = known_networks();
    assert(t.drop_first() =~= seq![
        ("ropsten"@, ROPSTEN_ENDPOINT@),
        ("rinkeby"@, RINKEBY_ENDPOINT@),
        ("goerli"@, GOERLI_ENDPOINT@),
        ("kovan"@, KOVAN_ENDPOINT@),
    ]);
    assert(t.drop_first().drop_first() =~= seq![
        ("rinkeby"@, RINKEBY_ENDPOINT@),
        ("goerli"@, GOERLI_ENDPOINT@),
        ("kovan"@, KOVAN_ENDPOINT@),
    ]);
    assert(t.drop_first().drop_first().drop_first() =~= seq![
        ("goerli"@, GOERLI_ENDPOINT@),
        ("kovan"@, KOVAN_ENDPOINT@),
    ]);
    assert(t.drop_first().drop_first().drop_first().drop_first() =~= seq![
        ("kovan"@, KOVAN_ENDPOINT@),
    ]);
    assert(t.drop_first().drop_first().drop_first().drop_first().drop_first() =~= Seq::<
        (Seq<char>, Seq<char>),
    >::empty());
    reveal_with_fuel(lookup_alias, 6);
}

fn alias(name: &str, endpoint: &str) -> (r: NetworkAlias)
    ensures
        r@ == (name@, endpoint@),
{
    NetworkAlias { name: name.to_owned(), endpoint: endpoint.to_owned() }
}

/// The built-in alias table.
pub fn default_networks() -> (r: Vec<NetworkAlias>)
    ensures
        table_view(r@) == known_networks(),
{
    let mut r: Vec<NetworkAlias> = Vec::new();
    r.push(alias("mainnet", MAINNET_ENDPOINT));
    r.push(alias("ropsten", ROPSTEN_ENDPOINT));
    r.push(alias("rinkeby", RINKEBY_ENDPOINT));
    r.push(alias("goerli", GOERLI_ENDPOINT));
    r.push(alias("kovan", KOVAN_ENDPOINT));
    assert(table_view(r@) =~= known_networks());
    r
}

/// Resolves a network flag against an alias table: the endpoint of the first entry
/// with that name, else the flag itself, taken as a literal endpoint.
pub fn resolve_in(table: &Vec<NetworkAlias>, flag: String) -> (r: String)
    ensures
        r@ == lookup_alias(table_view(table@), flag@),
{
    let mut i: usize = 0;
    assert(table@.subrange(0, table@.len() as int) =~= table@);
    while i < table.len()
        invariant
            0 <= i <= table@.len(),
            lookup_alias(table_view(table@), flag@) == lookup_alias(
                table_view(table@.subrange(i as int, table@.len() as int)),
                flag@,
            ),
        decreases table.len() - i,
    {
        let ghost rest = table_view(table@.subrange(i as int, table@.len() as int));
        assert(rest[0] == table@[i as int]@);
        assert(rest.drop_first() =~= table_view(
            table@.subrange(i as int + 1, table@.len() as int),
        ));
        if table[i].name == flag {
            return table[i].endpoint.clone();
        }
        i = i + 1;
    }
    assert(table_view(table@.subrange(i as int, table@.len() as int)) =~= Seq::empty());
    flag
}

/// Resolves the network flag with the built-in aliases.
pub fn get_network(network_flag: String) -> (r: String)
    ensures
        r@ == resolve_network(network_flag@),
{
    let table = default_networks();
    proof {
        lemma_known_networks(network_flag@);
    }
    resolve_in(&table, network_flag)
}

/// Each built-in alias resolves to its fixed endpoint, and any other flag is kept
/// unchanged as a literal endpoint.
pub proof fn lemma_network_resolution(flag: Seq<char>)
    ensures
        resolve_network("mainnet"@) == MAINNET_ENDPOINT@,
        resolve_network("ropsten"@) == ROPSTEN_ENDPOINT@,
        resolve_network("rinkeby"@) == RINKEBY_ENDPOINT@,
        resolve_network("goerli"@) == GOERLI_ENDPOINT@,
        resolve_network("kovan"@) == KOVAN_ENDPOINT@,
        flag != "mainnet"@ && flag != "ropsten"@ && flag != "rinkeby"@ && flag != "goerli"@
            && flag != "kovan"@ ==> resolve_network(flag) == flag,
{
    reveal_strlit("mainnet");
    reveal_strlit("ropsten");
    reveal_strlit("rinkeby");
    reveal_strlit("goerli");
    reveal_strlit("kovan");
    assert("ropsten"@[0] != "mainnet"@[0]);
    assert("rinkeby"@[1] != "ropsten"@[1]);
    assert("rinkeby"@[0] != "mainnet"@[0]);
    assert("goerli"@.len() != "mainnet"@.len());
    assert("goerli"@.len() != "ropsten"@.len());
    assert("goerli"@.len() != "rinkeby"@.len());
    assert("kovan"@.len() != "mainnet"@.len());
    assert("kovan"@.len() != "ropsten"@.len());
    assert("kovan"@.len() != "rinkeby"@.len());
    assert("kovan"@.len() != "goerli"@.len());
}

} // verus!
