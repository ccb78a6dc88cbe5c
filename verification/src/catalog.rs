//! The closed registry of infrastructure components and its default target sets.

use vstd::prelude::*;
use vstd::string::*;
use crate::error::{ErrorKind, Fault, MeshstackError};
use crate::text::{assoc, join, joined, lemma_assoc_finds, push_line, same_text, texts};

verus! {

/// One known component: its key and the coordinate of its chart.
#[derive(Debug)]
pub struct ComponentRegistration {
    pub key: String,
    pub chart: String,
}

impl View for ComponentRegistration {
    type V = (Seq<char>, Seq<char>);

    open spec fn view(&self) -> (Seq<char>, Seq<char>) {
        (self.key@, self.chart@)
    }
}

/// The (key, chart) pairs held by a list of registrations, in order.
pub open spec fn registrations(items: Seq<ComponentRegistration>) -> Seq<(Seq<char>, Seq<char>)> {
    items.map_values(|r: ComponentRegistration| r@)
}

/// The keys of a table, in table order.
pub open spec fn keys_of(table: Seq<(Seq<char>, Seq<char>)>) -> Seq<Seq<char>> {
    table.map_values(|e: (Seq<char>, Seq<char>)| e.0)
}

/// The catalog: every known component with its chart coordinate, in catalog order.
pub open spec fn catalog() -> Seq<(Seq<char>, Seq<char>)> {
    seq![
        ("istio"@, "istio/istio"@),
        ("prometheus"@, "prometheus-community/prometheus"@),
        ("grafana"@, "grafana/grafana"@),
        ("cert-manager"@, "cert-manager/cert-manager"@),
        ("nginx-ingress"@, "ingress-nginx/ingress-nginx"@),
        ("vault"@, "hashicorp/vault"@),
    ]
}

/// The chart coordinate that the catalog registers for `key`.
pub open spec fn assoc_catalog(key: Seq<char>) -> Option<Seq<char>> {
    assoc(catalog(), key)
}

/// The default set for installation: the catalog without its last entry, vault.
pub open spec fn install_defaults() -> Seq<(Seq<char>, Seq<char>)> {
    catalog().drop_last()
}

/// The default set for a full teardown: every key of the catalog.
pub open spec fn destroy_defaults() -> Seq<Seq<char>> {
    keys_of(catalog())
}

/// The failure reported for a component key that the catalog does not hold.
pub open spec fn unknown_component(key: Seq<char>) -> Fault {
    Fault {
        kind: ErrorKind::UnknownTarget,
        message: "Unknown component: "@ + key + ". Valid components are: "@ + joined(
            keys_of(catalog()),
            ", "@,
        ),
    }
}

fn entry(key: &str, chart: &str) -> (r: ComponentRegistration)
    ensures
        r@ == (key@, chart@),
{
    ComponentRegistration { key: String::from_str(key), chart: String::from_str(chart) }
}

/// The catalog as a table, in catalog order.
pub fn catalog_table() -> (table: Vec<ComponentRegistration>)
    ensures
        registrations(table@) == catalog(),
{
    let mut table: Vec<ComponentRegistration> = Vec::new();
    table.push(entry("istio", "istio/istio"));
    table.push(entry("prometheus", "prometheus-community/prometheus"));
    table.push(entry("grafana", "grafana/grafana"));
    table.push(entry("cert-manager", "cert-manager/cert-manager"));
    table.push(entry("nginx-ingress", "ingress-nginx/ingress-nginx"));
    table.push(entry("vault", "hashicorp/vault"));
    assert(registrations(table@) =~= catalog());
    table
}

/// The keys of the catalog, in catalog order.
pub fn valid_keys() -> (keys: Vec<String>)
    ensures
        texts(keys@) == keys_of(catalog()),
{
    let table = catalog_table();
    let mut keys: Vec<String> = Vec::new();
    let mut i: usize = 0;
    while i < table.len()
        invariant
            i <= table.len(),
            registrations(table@) == catalog(),
            texts(keys@) == keys_of(catalog()).take(i as int),
        decreases table.len() - i,
    {
        push_line(&mut keys, table[i].key.clone());
        assert(texts(keys@) =~= keys_of(catalog()).take(i as int + 1)) by {
            assert(registrations(table@)[i as int] == table@[i as int]@);
        }
        i += 1;
    }
    assert(keys_of(catalog()).take(table.len() as int) =~= keys_of(catalog())) by {
        assert(registrations(table@).len() == table.len());
    }
    keys
}

/// The chart coordinate registered for `key`, or `UnknownTarget` with the valid keys listed.
pub fn lookup(key: &str) -> (r: Result<String, MeshstackError>)
    ensures
        match r {
            Ok(chart) => assoc_catalog(key@) == Some(chart@),
            Err(e) => assoc_catalog(key@) is None && e@ == unknown_component(key@),
        },
{
    let table = catalog_table();
    let ghost all = registrations(table@);
    assert(all.subrange(0, all.len() as int) =~= all);
    let mut i: usize = 0;
    while i < table.len()
        invariant
            i <= table.len(),
            all == registrations(table@),
            all == catalog(),
            assoc(all, key@) == assoc(all.subrange(i as int, all.len() as int), key@),
        decreases table.len() - i,
    {
        let ghost rest = all.subrange(i as int, all.len() as int);
        assert(rest[0] == table@[i as int]@);
        assert(rest.subrange(1, rest.len() as int) =~= all.subrange(i as int + 1, all.len() as int));
        if same_text(table[i].key.as_str(), key) {
            return Ok(table[i].chart.clone());
        }
        i += 1;
    }
    assert(all.subrange(table.len() as int, all.len() as int).len() == 0);
    let keys = valid_keys();
    let listed = join(&keys, ", ");
    let mut message = String::from_str("Unknown component: ");
    message.append(key);
    message.append(". Valid components are: ");
    message.append(listed.as_str());
    Err(MeshstackError::new(ErrorKind::UnknownTarget, message))
}

/// The default installation set: every registration but vault, in catalog order.
pub fn default_install_set() -> (set: Vec<ComponentRegistration>)
    ensures
        registrations(set@) == install_defaults(),
{
    let mut set = catalog_table();
    let last = set.pop();
    assert(registrations(set@) =~= install_defaults());
    set
}

/// The default teardown set: every key of the catalog, vault included, in catalog order.
pub fn default_destroy_set() -> (set: Vec<String>)
    ensures
        texts(set@) == destroy_defaults(),
{
    valid_keys()
}

/// The keys of the catalog are pairwise distinct, so each has one registration.
pub proof fn lemma_catalog_keys_distinct()
    ensures
        forall|i: int, j: int|
            0 <= i < j < catalog().len() ==> #[trigger] catalog()[i].0 != #[trigger] catalog()[j].0,
{
    reveal_strlit("istio");
    reveal_strlit("prometheus");
    reveal_strlit("grafana");
    reveal_strlit("cert-manager");
    reveal_strlit("nginx-ingress");
    reveal_strlit("vault");
    assert("istio"@.len() == 5);
    assert("prometheus"@.len() == 10);
    assert("grafana"@.len() == 7);
    assert("cert-manager"@.len() == 12);
    assert("nginx-ingress"@.len() == 13);
    assert("vault"@.len() == 5);
    assert("istio"@[0] == 'i');
    assert("vault"@[0] == 'v');
}

/// The default installation set has five members, in catalog order, and vault
/// is not among them; the default teardown set has all six.
pub proof fn lemma_default_sets()
    ensures
        keys_of(install_defaults()) == seq![
            "istio"@,
            "prometheus"@,
            "grafana"@,
            "cert-manager"@,
            "nginx-ingress"@,
        ],
        install_defaults().len() == 5,
        !keys_of(install_defaults()).contains("vault"@),
        destroy_defaults() == seq![
            "istio"@,
            "prometheus"@,
            "grafana"@,
            "cert-manager"@,
            "nginx-ingress"@,
            "vault"@,
        ],
        destroy_defaults().len() == 6,
        forall|i: int| 0 <= i < 5 ==> install_defaults()[i] == catalog()[i],
{
    lemma_catalog_keys_distinct();
    let keys = keys_of(install_defaults());
    assert(keys =~= seq!["istio"@, "prometheus"@, "grafana"@, "cert-manager"@, "nginx-ingress"@]);
    assert(destroy_defaults() =~= seq![
        "istio"@,
        "prometheus"@,
        "grafana"@,
        "cert-manager"@,
        "nginx-ingress"@,
        "vault"@,
    ]);
    assert forall|i: int| 0 <= i < keys.len() implies keys[i] != "vault"@ by {
        assert(keys[i] == catalog()[i].0);
        assert(catalog()[5].0 == "vault"@);
    }
}

/// A key has a chart exactly when it is one of the catalog's keys, and the
/// chart is the one registered with it.
pub proof fn lemma_lookup_is_membership(key: Seq<char>)
    ensures
        assoc_catalog(key) is Some <==> keys_of(catalog()).contains(key),
        forall|i: int|
            0 <= i < catalog().len() && catalog()[i].0 == key ==> assoc_catalog(key) == Some(
                catalog()[i].1,
            ),
{
    lemma_catalog_keys_distinct();
    lemma_assoc_finds(catalog(), key);
    if assoc_catalog(key) is Some {
        let i = choose|i: int| 0 <= i < catalog().len() && catalog()[i].0 == key;
        assert(keys_of(catalog())[i] == key);
    }
    if keys_of(catalog()).contains(key) {
        let i = choose|i: int| 0 <= i < keys_of(catalog()).len() && keys_of(catalog())[i] == key;
        assert(catalog()[i].0 == key);
    }
    assert forall|i: int| 0 <= i < catalog().len() && catalog()[i].0 == key implies assoc_catalog(
        key,
    ) == Some(catalog()[i].1) by {
        let j = choose|j: int|
            0 <= j < catalog().len() && catalog()[j].0 == key && assoc(catalog(), key) == Some(
                catalog()[j].1,
            );
        if i < j {
            assert(catalog()[i].0 != catalog()[j].0);
        } else if j < i {
            assert(catalog()[j].0 != catalog()[i].0);
        }
    }
}

} // verus!
