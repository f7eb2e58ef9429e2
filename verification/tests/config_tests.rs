use nsq_client::Config;
use nsq_client::NsqdConfig;
use nsq_client::VerifyServerCert;

#[test]
fn config_new_has_documented_defaults() {
    let c = Config::new();
    assert_eq!(c.feature_negotiation, true);
    assert_eq!(c.heartbeat_interval, 30000);
    assert_eq!(c.output_buffer_size, 16384);
    assert_eq!(c.output_buffer_timeout, 250);
    assert_eq!(c.tls_v1, false);
    assert_eq!(c.snappy, false);
    assert_eq!(c.deflate, false);
    assert_eq!(c.deflate_level, 6);
    assert_eq!(c.sample_rate, 0);
    assert_eq!(c.user_agent, "nsq_client");
    assert_eq!(c.message_timeout, 0);
    assert_eq!(c.private_ca, "");
    assert_eq!(c.verify_server, true);
}

#[test]
fn config_builders_set_their_fields() {
    let c = Config::new()
        .client_id(String::from("consumer"))
        .hostname(String::from("node-1"))
        .user_agent(String::from("consumer-1"));
    assert_eq!(c.client_id, Some(String::from("consumer")));
    assert_eq!(c.hostname, Some(String::from("node-1")));
    assert_eq!(c.user_agent, String::from("consumer-1"));
    assert_eq!(c.heartbeat_interval, 30000);
}

#[test]
fn config_tls_no_verify_disables_verification() {
    let mut c = Config::new();
    c.tls(VerifyServerCert::NoVerify);
    assert!(c.tls_v1);
    assert!(!c.verify_server);
    assert_eq!(c.private_ca, "");
}

#[test]
fn config_tls_private_ca_records_the_chain() {
    let mut c = Config::new();
    c.tls(VerifyServerCert::PrivateCA(String::from("ca.pem")));
    assert!(c.tls_v1);
    assert!(c.verify_server);
    assert_eq!(c.private_ca, "ca.pem");
}

#[test]
fn config_tls_public_ca_keeps_verification() {
    let mut c = Config::new();
    c.tls(VerifyServerCert::PublicCA);
    assert!(c.tls_v1);
    assert!(c.verify_server);
    assert_eq!(c.private_ca, "");
}

#[test]
fn config_deflate_sets_level() {
    let mut c = Config::new();
    c.deflate(3);
    assert!(c.deflate);
    assert_eq!(c.deflate_level, 3);
}

#[test]
fn config_clone_is_equal() {
    let c = Config::new().client_id(String::from("consumer"));
    assert_eq!(c.clone(), c);
}

#[test]
fn nsqd_config_default_is_all_zero() {
    let c = NsqdConfig::default();
    assert_eq!(c.max_rdy_count, 0);
    assert_eq!(c.version, "");
    assert!(!c.tls_v1);
    assert!(!c.auth_required);
}

#[test]
fn parse_negotiation_reads_every_field() {
    let text = "{\"max_rdy_count\":2500,\"version\":\"1.2.0\",\"max_msg_timeout\":900000,\
                \"msg_timeout\":60000,\"tls_v1\":true,\"deflate\":true,\"deflate_level\":5,\
                \"max_deflate_level\":6,\"snappy\":true,\"sample_rate\":25,\
                \"auth_required\":true,\"output_buffer_size\":16384,\
                \"output_buffer_timeout\":250}";
    let cfg = NsqdConfig::parse(text).expect("valid payload");
    assert_eq!(cfg.max_rdy_count, 2500);
    assert_eq!(cfg.version, "1.2.0");
    assert_eq!(cfg.max_msg_timeout, 900000);
    assert_eq!(cfg.msg_timeout, 60000);
    assert!(cfg.tls_v1);
    assert!(cfg.deflate);
    assert_eq!(cfg.deflate_level, 5);
    assert_eq!(cfg.max_deflate_level, 6);
    assert!(cfg.snappy);
    assert_eq!(cfg.sample_rate, 25);
    assert!(cfg.auth_required);
    assert_eq!(cfg.output_buffer_size, 16384);
    assert_eq!(cfg.output_buffer_timeout, 250);
}

#[test]
fn parse_negotiation_rejects_invalid_json() {
    assert!(NsqdConfig::parse("not json at all").is_none());
}

#[test]
fn parse_negotiation_rejects_missing_field() {
    // auth_required is absent
    let text = "{\"max_rdy_count\":2500,\"version\":\"1.2.0\",\"max_msg_timeout\":900000,\
                \"msg_timeout\":60000,\"tls_v1\":false,\"deflate\":false,\"deflate_level\":6,\
                \"max_deflate_level\":6,\"snappy\":false,\"sample_rate\":0,\
                \"output_buffer_size\":16384,\"output_buffer_timeout\":250}";
    assert!(NsqdConfig::parse(text).is_none());
}

#[test]
fn parse_negotiation_rejects_wrong_type() {
    let text = "{\"max_rdy_count\":\"many\",\"version\":\"1.2.0\",\"max_msg_timeout\":900000,\
                \"msg_timeout\":60000,\"tls_v1\":false,\"deflate\":false,\"deflate_level\":6,\
                \"max_deflate_level\":6,\"snappy\":false,\"sample_rate\":0,\
                \"auth_required\":false,\"output_buffer_size\":16384,\
                \"output_buffer_timeout\":250}";
    assert!(NsqdConfig::parse(text).is_none());
}

#[test]
fn parse_negotiation_rejects_out_of_range() {
    // max_rdy_count does not fit in 32 bits
    let text = "{\"max_rdy_count\":5000000000,\"version\":\"1.2.0\",\"max_msg_timeout\":900000,\
                \"msg_timeout\":60000,\"tls_v1\":false,\"deflate\":false,\"deflate_level\":6,\
                \"max_deflate_level\":6,\"snappy\":false,\"sample_rate\":0,\
                \"auth_required\":false,\"output_buffer_size\":16384,\
                \"output_buffer_timeout\":250}";
    assert!(NsqdConfig::parse(text).is_none());
}
