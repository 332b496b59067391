use lagoinha::services::{cepla, correios, viacep, Address};

#[test]
fn viacep_conversion() {
    let viac_addr = viacep::Address {
        cep: "70150-903".to_string(),
        address: "SPP".to_string(),
        details: "Palácio da Alvorada (Residência Oficial do Presidente da República)"
            .to_string(),
        neighborhood: "Zona Cívico-Administrativa".to_string(),
        city: "Brasília".to_string(),
        state: "DF".to_string(),
        unidade: "".to_string(),
        ibge: "5300108".to_string(),
        gia: "".to_string(),
    };
    let viac_addr = viac_addr.to_address();

    let addr = Address {
        cep: "70150-903".to_string(),
        state: "DF".to_string(),
        city: "Brasília".to_string(),
        neighborhood: "Zona Cívico-Administrativa".to_string(),
        address: "SPP".to_string(),
        details: "Palácio da Alvorada (Residência Oficial do Presidente da República)"
            .to_string(),
    };

    assert_eq!(addr.address, viac_addr.address);
    assert_eq!(addr.state, viac_addr.state);
    assert_eq!(addr.neighborhood, viac_addr.neighborhood);
    assert_eq!(addr.city, viac_addr.city);
    assert_eq!(addr.cep, viac_addr.cep);
    assert_eq!(addr.details, viac_addr.details);
}

#[test]
fn correios_conversion() {
    let corr_addr = correios::Address {
        cep: "70150903".to_string(),
        state: "DF".to_string(),
        city: "Brasília".to_string(),
        neighborhood: "Zona Cívico-Administrativa".to_string(),
        address: "SPP".to_string(),
    };
    let corr_addr = corr_addr.to_address();

    let addr = Address {
        cep: "70150903".to_string(),
        state: "DF".to_string(),
        city: "Brasília".to_string(),
        neighborhood: "Zona Cívico-Administrativa".to_string(),
        address: "SPP".to_string(),
        details: "Palácio da Alvorada (Residência Oficial do Presidente da República)"
            .to_string(),
    };

    assert_eq!(addr.address, corr_addr.address);
    assert_eq!(addr.state, corr_addr.state);
    assert_eq!(addr.neighborhood, corr_addr.neighborhood);
    assert_eq!(addr.city, corr_addr.city);
    assert_eq!(addr.cep, corr_addr.cep);
}

#[test]
fn cepla_conversion() {
    let cepl_addr = cepla::Address {
        cep: "70150903".to_string(),
        state: "DF".to_string(),
        city: "Brasília".to_string(),
        neighborhood: "Zona Cívico-Administrativa".to_string(),
        address: "SPP".to_string(),
        details: "Palácio da Alvorada (Residência Oficial do Presidente da República)"
            .to_string(),
    };
    let cepl_addr = cepl_addr.to_address();

    let addr = Address {
        cep: "70150903".to_string(),
        state: "DF".to_string(),
        city: "Brasília".to_string(),
        neighborhood: "Zona Cívico-Administrativa".to_string(),
        address: "SPP".to_string(),
        details: "Palácio da Alvorada (Residência Oficial do Presidente da República)"
            .to_string(),
    };

    assert_eq!(addr.address, cepl_addr.address);
    assert_eq!(addr.state, cepl_addr.state);
    assert_eq!(addr.neighborhood, cepl_addr.neighborhood);
    assert_eq!(addr.city, cepl_addr.city);
    assert_eq!(addr.cep, cepl_addr.cep);
    assert_eq!(addr.details, cepl_addr.details);
}

#[test]
fn correios_conversion_has_empty_details() {
    let corr_addr = correios::Address {
        cep: "70150903".to_string(),
        state: "DF".to_string(),
        city: "Brasília".to_string(),
        neighborhood: "Zona Cívico-Administrativa".to_string(),
        address: "SPP".to_string(),
    };
    assert_eq!(corr_addr.to_address().details, "");
}

#[test]
fn conversion_leaves_absent_fields_empty() {
    let addr = cepla::Address {
        cep: String::new(),
        state: "DF".to_string(),
        city: "Brasília".to_string(),
        neighborhood: "Zona Cívico-Administrativa".to_string(),
        address: String::new(),
        details: String::new(),
    }
    .to_address();
    assert_eq!(addr.cep, "");
    assert_eq!(addr.address, "");
    assert_eq!(addr.details, "");
    assert_eq!(addr.state, "DF");
    assert_eq!(addr.city, "Brasília");
    assert_eq!(addr.neighborhood, "Zona Cívico-Administrativa");
}

#[test]
fn converting_twice_gives_the_same_address() {
    let viac_addr = viacep::Address {
        cep: "70150-903".to_string(),
        address: "SPP".to_string(),
        details: "".to_string(),
        neighborhood: "Zona Cívico-Administrativa".to_string(),
        city: "Brasília".to_string(),
        state: "DF".to_string(),
        unidade: "".to_string(),
        ibge: "5300108".to_string(),
        gia: "".to_string(),
    };
    let once = viac_addr.to_address();
    let twice = viac_addr.to_address();
    assert_eq!(once.cep, twice.cep);
    assert_eq!(once.address, twice.address);
    assert_eq!(once.details, twice.details);
    assert_eq!(once.neighborhood, twice.neighborhood);
    assert_eq!(once.state, twice.state);
    assert_eq!(once.city, twice.city);

    let corr_addr = correios::Address {
        cep: "70150903".to_string(),
        state: "DF".to_string(),
        city: "Brasília".to_string(),
        neighborhood: "Zona Cívico-Administrativa".to_string(),
        address: "SPP".to_string(),
    };
    let once = corr_addr.to_address();
    let twice = corr_addr.to_address();
    assert_eq!(once.cep, twice.cep);
    assert_eq!(once.address, twice.address);
    assert_eq!(once.details, twice.details);
    assert_eq!(once.neighborhood, twice.neighborhood);
    assert_eq!(once.state, twice.state);
    assert_eq!(once.city, twice.city);

    let cepl_addr = cepla::Address {
        cep: "70150903".to_string(),
        state: "DF".to_string(),
        city: "Brasília".to_string(),
        neighborhood: "Zona Cívico-Administrativa".to_string(),
        address: "SPP".to_string(),
        details: "Palácio da Alvorada".to_string(),
    };
    let once = cepl_addr.to_address();
    let twice = cepl_addr.to_address();
    assert_eq!(once.cep, twice.cep);
    assert_eq!(once.address, twice.address);
    assert_eq!(once.details, twice.details);
    assert_eq!(once.neighborhood, twice.neighborhood);
    assert_eq!(once.state, twice.state);
    assert_eq!(once.city, twice.city);
}
