use backend_rs::uniprot::idmapping;
use backend_rs::uniprot_proxy;

fn public_query(
    tax_id: i64,
    ids: &[&str],
    from: Option<&str>,
    to: Option<&str>,
) -> uniprot_proxy::Query {
    uniprot_proxy::Query {
        tax_id,
        ids: ids.iter().map(|s| String::from(*s)).collect(),
        from: from.map(String::from),
        to: to.map(String::from),
    }
}

#[test]
fn translator_defaults_when_both_absent() {
    let q = public_query(9606, &["BRCA1", "TP53"], None, None);
    let u = idmapping::Query::from(&q);
    assert_eq!(u.from.as_deref(), Some("Gene_Name"));
    assert_eq!(u.to.as_deref(), Some("UniProtKB-Swiss-Prot"));
}

#[test]
fn translator_preserves_explicit_fields() {
    let q = public_query(9606, &["BRCA1"], Some("Gene_Name"), Some("Accession"));
    let u = idmapping::Query::from(&q);
    assert_eq!(u.from.as_deref(), Some("Gene_Name"));
    assert_eq!(u.to.as_deref(), Some("Accession"));
}

#[test]
fn translator_joins_ids_and_keeps_tax_id() {
    let q = public_query(9606, &["BRCA1", "TP53", "EGFR"], None, None);
    let u = idmapping::Query::from(&q);
    assert_eq!(u.ids, "BRCA1,TP53,EGFR");
    assert_eq!(u.tax_id, 9606);
}

#[test]
fn translator_empty_id_list_joins_to_empty_string() {
    let q = public_query(10090, &[], None, None);
    let u = idmapping::Query::from(&q);
    assert_eq!(u.ids, "");
    assert_eq!(u.tax_id, 10090);
}

#[test]
fn translator_single_id_has_no_comma() {
    let q = public_query(9606, &["BRCA1"], None, None);
    let u = idmapping::Query::from(&q);
    assert_eq!(u.ids, "BRCA1");
}

#[test]
fn default_from_to_fills_only_absent_fields() {
    let mut u = idmapping::Query {
        from: None,
        to: Some(String::from("Accession")),
        ids: String::from("BRCA1"),
        tax_id: 9606,
    };
    u.default_from_to();
    assert_eq!(u.from.as_deref(), Some("Gene_Name"));
    assert_eq!(u.to.as_deref(), Some("Accession"));
    assert_eq!(u.ids, "BRCA1");
    assert_eq!(u.tax_id, 9606);
}

#[test]
fn form_body_of_defaulted_query_matches_expected_pairs() {
    let q = public_query(9606, &["BRCA1", "TP53"], None, None);
    let u = idmapping::Query::from(&q);
    let body = u.form_body();
    assert_eq!(
        body,
        "from=Gene_Name&to=UniProtKB-Swiss-Prot&ids=BRCA1,TP53&taxId=9606"
    );
}

#[test]
fn form_body_encodes_reserved_characters() {
    let u = idmapping::Query {
        from: Some(String::from("Gene Name")),
        to: Some(String::from("a&b=c")),
        ids: String::from("x+y%z"),
        tax_id: -35,
    };
    let body = u.form_body();
    assert_eq!(body, "from=Gene+Name&to=a%26b%3Dc&ids=x%2By%25z&taxId=-35");
}

#[test]
fn form_body_encodes_non_ascii_as_utf8_escapes() {
    let u = idmapping::Query {
        from: Some(String::from("Gene_Name")),
        to: Some(String::from("UniProtKB-Swiss-Prot")),
        ids: String::from("caf\u{e9}"),
        tax_id: 1,
    };
    let body = u.form_body();
    assert_eq!(
        body,
        "from=Gene_Name&to=UniProtKB-Swiss-Prot&ids=caf%C3%A9&taxId=1"
    );
}
