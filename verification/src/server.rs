use vstd::prelude::*;
use crate::configuration::ApplicationSettings;
use crate::text::{decimal, decimal_string, decimal_value, host_port, is_digit, lemma_decimal_writes_n};

verus! {

/// How often, in seconds, an organism sends food to a peer.
pub const FOOD_INTERVAL_SECS: u64 = 2;

/// The name of the organism with index `index`: `organism` and the index.
pub open spec fn server_name_spec(index: nat) -> Seq<char> {
    "organism"@ + decimal(index)
}

/// The address of the organism with index `index`: the configured host and
/// the base port shifted by the index.
pub open spec fn server_address_spec(host: Seq<char>, base_port: nat, index: nat) -> Seq<char> {
    host + seq![':'] + decimal(base_port + index)
}

/// An organism's name is `organism` followed by the decimal digits of its
/// index, which read back give the index.
pub proof fn lemma_server_name_writes_index(index: nat)
    ensures
        server_name_spec(index).take(8) == "organism"@,
        decimal_value(server_name_spec(index).skip(8)) == index,
        forall|i: int| 8 <= i < server_name_spec(index).len() ==> is_digit(#[trigger] server_name_spec(index)[i]),
{
    reveal_strlit("organism");
    lemma_decimal_writes_n(index);
    assert(server_name_spec(index).take(8) =~= "organism"@);
    assert(server_name_spec(index).skip(8) =~= decimal(index));
    assert forall|i: int| 8 <= i < server_name_spec(index).len() implies is_digit(#[trigger] server_name_spec(index)[i]) by {
        assert(server_name_spec(index)[i] == decimal(index)[i - 8]);
    }
}

/// An organism's address is the configured host, a colon, and the decimal
/// digits of the base port plus the index, which read back give that port.
pub proof fn lemma_server_address_parts(host: Seq<char>, base_port: nat, index: nat)
    ensures
        server_address_spec(host, base_port, index).take(host.len() as int) == host,
        server_address_spec(host, base_port, index)[host.len() as int] == ':',
        decimal_value(server_address_spec(host, base_port, index).skip(host.len() + 1 as int))
            == base_port + index,
{
    lemma_decimal_writes_n(base_port + index);
    let a = server_address_spec(host, base_port, index);
    assert(a.take(host.len() as int) =~= host);
    assert(a.skip(host.len() + 1 as int) =~= decimal(base_port + index));
}

/// The name of the organism with index `index`.
pub fn server_name(index: usize) -> (name: String)
    ensures
        name@ == server_name_spec(index as nat),
        name@.take(8) == "organism"@,
        decimal_value(name@.skip(8)) == index,
{
    proof {
        lemma_server_name_writes_index(index as nat);
    }
    let mut name = "organism".to_owned();
    let digits = decimal_string(index);
    name.append(digits.as_str());
    name
}

/// The address on which the organism with index `index` listens.
pub fn server_address(settings: &ApplicationSettings, index: usize) -> (addr: String)
    requires
        settings.addr_base_port + index <= usize::MAX,
    ensures
        addr@ == server_address_spec(settings.addr_host@, settings.addr_base_port as nat, index as nat),
        addr@.take(settings.addr_host@.len() as int) == settings.addr_host@,
        addr@[settings.addr_host@.len() as int] == ':',
        decimal_value(addr@.skip(settings.addr_host@.len() + 1 as int)) == settings.addr_base_port + index,
{
    proof {
        lemma_server_address_parts(settings.addr_host@, settings.addr_base_port as nat, index as nat);
    }
    host_port(settings.addr_host.as_str(), settings.addr_base_port + index)
}

/// The indices of the peers of organism `server_index` in a population of
/// `population_size`: every index from 1 to the population size but its own,
/// in increasing order.
pub fn peer_indices(population_size: usize, server_index: usize) -> (peers: Vec<usize>)
    requires
        population_size < usize::MAX,
    ensures
        forall|i: int, j: int| 0 <= i < j < peers.len() ==> peers[i] < peers[j],
        forall|p: usize|
            peers@.contains(p) <==> (1 <= p <= population_size && p != server_index),
{
    let mut peers: Vec<usize> = Vec::new();
    let mut peer_index: usize = 1;
    while peer_index < population_size + 1
        invariant
            1 <= peer_index <= population_size + 1,
            population_size < usize::MAX,
            forall|i: int, j: int| 0 <= i < j < peers.len() ==> peers[i] < peers[j],
            forall|i: int| 0 <= i < peers.len() ==> peers[i] < peer_index,
            forall|p: usize|
                peers@.contains(p) <==> (1 <= p < peer_index && p != server_index),
        decreases population_size + 1 - peer_index,
    {
        let ghost before = peers@;
        if peer_index != server_index {
            peers.push(peer_index);
        }
        assert forall|p: usize|
            peers@.contains(p) <==> (1 <= p < peer_index + 1 && p != server_index) by {
            if peers@.contains(p) {
                let k = choose|k: int| 0 <= k < peers@.len() && peers@[k] == p;
                if k < before.len() {
                    assert(before[k] == p);
                }
            }
            if before.contains(p) {
                let k = choose|k: int| 0 <= k < before.len() && before[k] == p;
                assert(peers@[k] == p);
            }
            if p == peer_index && p != server_index {
                assert(peers@[peers@.len() - 1] == p);
            }
        }
        peer_index = peer_index + 1;
    }
    peers
}

} // verus!
