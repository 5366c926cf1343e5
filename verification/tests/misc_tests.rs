use surreal_query_builder::{
    pick_primary_email, token_expires_at, FieldType, GithubConfig, OauthConfigs, OauthEmail,
    OauthGithubConfigs, OauthGoogleConfigs, OauthProvider, StructIdent, TableDeriveAttributes,
    TypeExpr, TypePath,
};

#[test]
fn field_type_parser_round_trips() {
    let parsed = FieldType::parse("record(space_ship)").unwrap();
    assert_eq!(parsed, FieldType::Record("space_ship".to_string()));
    assert_eq!(parsed.render(), "record(space_ship)");
    assert_eq!(FieldType::parse("int").unwrap(), FieldType::Int);
    assert_eq!(
        FieldType::parse("geometry(feature)").unwrap(),
        FieldType::Geometry("feature".to_string())
    );
    assert!(FieldType::parse("records").is_none());
    assert!(FieldType::parse("").is_none());
}

#[test]
fn struct_ident_helpers() {
    let ident = StructIdent("Weapon".to_string());
    assert_eq!(ident.partial_ident().0, "WeaponPartial");
    assert_eq!(ident.partial_builder_ident().0, "WeaponPartialBuilder");

    let same = TypeExpr::Path(TypePath {
        segments: vec![surreal_query_builder::PathSegment {
            ident: "Weapon".to_string(),
            arguments: vec![],
        }],
    });
    assert_eq!(ident.is_same_name(&same).unwrap(), true);
    let other = TypeExpr::Path(TypePath {
        segments: vec![surreal_query_builder::PathSegment {
            ident: "Rocket".to_string(),
            arguments: vec![],
        }],
    });
    assert_eq!(ident.is_same_name(&other).unwrap(), false);
    assert!(ident.is_same_name(&TypeExpr::Never).is_err());
}

fn plain_table_attributes() -> TableDeriveAttributes {
    TableDeriveAttributes {
        ident: "SpaceShip".to_string(),
        generics: vec![],
        table: "space_ship".to_string(),
        rename_all: None,
        relax_table: None,
        schemafull: None,
        drop: None,
        flexible: None,
        as_: None,
        permissions: None,
        define: None,
    }
}

#[test]
fn table_name_must_match_struct_unless_relaxed() {
    let attrs = plain_table_attributes();
    assert_eq!(attrs.table().unwrap(), "space_ship");

    let mut mismatched = plain_table_attributes();
    mismatched.table = "ships".to_string();
    assert!(mismatched.table().is_err());
    mismatched.relax_table = Some(true);
    assert_eq!(mismatched.table().unwrap(), "ships");
}

#[test]
fn newer_table_definition_lowers_to_raw() {
    let attrs = plain_table_attributes();
    assert_eq!(
        attrs.get_table_definition_token().unwrap(),
        "define_table(Self::table()).to_raw()"
    );

    let mut flagged = plain_table_attributes();
    flagged.flexible = Some(true);
    flagged.schemafull = Some(true);
    assert_eq!(
        flagged.get_table_definition_token().unwrap(),
        "define_table(Self::table()).flexible().schemafull().to_raw()"
    );

    let mut conflicted = plain_table_attributes();
    conflicted.define = Some("DEFINE TABLE space_ship;".to_string());
    conflicted.drop = Some(true);
    assert!(conflicted.get_table_definition_token().is_err());
}

#[test]
fn github_config_holds_fixed_endpoints_and_scopes() {
    let config = GithubConfig::new(
        "client".to_string(),
        "SECRET-REDACTED".to_string(),
        "http://localhost/callback".to_string(),
    );
    let basic = config.basic_config();
    assert_eq!(basic.auth_url, "https://github.com/login/oauth/authorize");
    assert_eq!(basic.token_url, "https://github.com/login/oauth/access_token");
    assert_eq!(basic.provider, OauthProvider::Github);
    assert_eq!(
        basic.scopes,
        vec![
            "public_repo".to_string(),
            "read:user".to_string(),
            "user:email".to_string()
        ]
    );
}

#[test]
fn primary_email_selection() {
    let emails = vec![
        OauthEmail {
            email: "a@example.com".to_string(),
            primary: false,
            verified: true,
        },
        OauthEmail {
            email: "b@example.com".to_string(),
            primary: true,
            verified: true,
        },
    ];
    assert_eq!(pick_primary_email(&emails), Some(1));

    let no_primary = vec![OauthEmail {
        email: "a@example.com".to_string(),
        primary: false,
        verified: false,
    }];
    assert_eq!(pick_primary_email(&no_primary), Some(0));
    assert_eq!(pick_primary_email(&vec![]), None);
}

#[test]
fn token_expiry_saturates() {
    assert_eq!(token_expires_at(1000, Some(60)), 1060);
    assert_eq!(token_expires_at(1000, None), 1000);
    assert_eq!(token_expires_at(i64::MAX, Some(1)), i64::MAX);
}

#[test]
fn oauth_configs_wrap_credentials() {
    let configs = OauthConfigs::new(
        OauthGoogleConfigs::new("gid".to_string(), "SECRET-REDACTED".to_string()),
        OauthGithubConfigs::new("hid".to_string(), "SECRET-REDACTED".to_string()),
    );
    assert_eq!(configs.google.google_client_id, "gid");
    assert_eq!(configs.github.github_client_id, "hid");
}
