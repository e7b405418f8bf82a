use sale_relay::config::RelayConfig;
use sale_relay::record::SaleRecord;
use sale_relay::relay::conclude;
use sale_relay::relay::forward;
use sale_relay::relay::receive;
use sale_relay::relay::BodyKind;
use sale_relay::relay::DownstreamOutcome;
use sale_relay::relay::Method;
use sale_relay::relay::Phase;
use sale_relay::relay::Reply;
use sale_relay::relay::CONFIRMATION_BODY;
use sale_relay::relay::FAILURE_BODY;
use sale_relay::relay::FAILURE_LOG_PREFIX;
use sale_relay::relay::STATUS_INTERNAL_SERVER_ERROR;
use sale_relay::relay::STATUS_OK;

fn sample_record() -> SaleRecord {
    SaleRecord {
        category: "Electrónica".to_string(),
        product_id: "SKU-000123".to_string(),
        price_bits: 1499.99f64.to_bits(),
        quantity_sold: 3,
    }
}

fn failure(description: &str) -> DownstreamOutcome {
    DownstreamOutcome::TransportFailure { description: description.to_string() }
}

#[test]
fn forward_targets_the_endpoint_and_keeps_every_field() {
    let config = RelayConfig::from_environment(None);
    let request = forward(&config, sample_record());
    assert_eq!(request.method, Method::Post);
    assert_eq!(request.url, "http://go-api:8081/procesar");
    assert_eq!(request.record.category, "Electrónica");
    assert_eq!(request.record.product_id, "SKU-000123");
    assert_eq!(f64::from_bits(request.record.price_bits), 1499.99);
    assert_eq!(request.record.quantity_sold, 3);
    assert_eq!(request.record, sample_record());
}

#[test]
fn forward_follows_the_environment() {
    let config = RelayConfig::from_environment(Some("http://127.0.0.1:9999".to_string()));
    let request = forward(&config, sample_record());
    assert_eq!(request.url, "http://127.0.0.1:9999/procesar");
}

#[test]
fn forward_checks_neither_price_nor_quantity() {
    let config = RelayConfig::from_environment(None);
    let odd = SaleRecord {
        category: String::new(),
        product_id: String::new(),
        price_bits: (-0.5f64).to_bits(),
        quantity_sold: i32::MIN,
    };
    let request = forward(&config, odd.clone());
    assert_eq!(request.record, odd);
    assert_eq!(f64::from_bits(request.record.price_bits), -0.5);
    assert_eq!(request.record.quantity_sold, i32::MIN);
}

#[test]
fn forward_keeps_the_price_bit_for_bit() {
    let config = RelayConfig::from_environment(None);
    let prices = vec![0.0f64, -0.0, 0.1, 9.99, 1e308, f64::MIN_POSITIVE, f64::MAX];
    for price in prices {
        let record = SaleRecord { price_bits: price.to_bits(), ..sample_record() };
        let request = forward(&config, record);
        assert_eq!(request.record.price_bits, price.to_bits());
    }
}

#[test]
fn receive_forwards_a_decoded_record() {
    let config = RelayConfig::from_environment(None);
    let outbound = receive(&config, Some(sample_record()));
    assert_eq!(outbound, Some(forward(&config, sample_record())));
}

#[test]
fn receive_sends_nothing_for_a_body_that_did_not_decode() {
    let config = RelayConfig::from_environment(None);
    assert_eq!(receive(&config, None), None);
}

#[test]
fn downstream_200_confirms_the_sale() {
    let reply = conclude(DownstreamOutcome::Answered { status: 200 });
    assert_eq!(reply.phase, Phase::RespondedOk);
    assert_eq!(reply.response.status, 200);
    assert_eq!(reply.response.kind, BodyKind::Json);
    assert_eq!(reply.response.body, "\"Venta procesada\"");
    assert_eq!(reply.log_line, None);
}

#[test]
fn downstream_500_still_confirms_the_sale() {
    let reply = conclude(DownstreamOutcome::Answered { status: 500 });
    assert_eq!(reply, conclude(DownstreamOutcome::Answered { status: 200 }));
    assert_eq!(reply.response.status, 200);
    assert_eq!(reply.response.body, "\"Venta procesada\"");
}

#[test]
fn downstream_status_is_never_consulted() {
    let expected = conclude(DownstreamOutcome::Answered { status: 200 });
    let statuses: Vec<u16> = vec![0, 100, 204, 301, 404, 418, 503, 599, u16::MAX];
    for status in statuses {
        assert_eq!(conclude(DownstreamOutcome::Answered { status }), expected);
    }
}

#[test]
fn connection_refused_gives_500_and_a_log_line() {
    let reply = conclude(failure("connection refused"));
    assert_eq!(reply.phase, Phase::RespondedError);
    assert_eq!(reply.response.status, 500);
    assert_eq!(reply.response.kind, BodyKind::Untyped);
    assert_eq!(reply.response.body, "Error enviando a Go");
    assert_eq!(reply.log_line, Some("Error enviando a Go: connection refused".to_string()));
}

#[test]
fn failure_description_reaches_the_log_and_not_the_caller() {
    let first = conclude(failure("dns error: no such host"));
    let second = conclude(failure("operation timed out"));
    assert_eq!(first.response, second.response);
    assert_ne!(first.log_line, second.log_line);
    assert!(!first.response.body.contains("dns"));
    assert_eq!(first.log_line, Some("Error enviando a Go: dns error: no such host".to_string()));
}

#[test]
fn empty_failure_description_leaves_the_bare_prefix() {
    let reply = conclude(failure(""));
    assert_eq!(reply.response.status, 500);
    assert_eq!(reply.log_line, Some("Error enviando a Go: ".to_string()));
}

#[test]
fn fixed_texts_and_statuses_have_their_documented_values() {
    assert_eq!(STATUS_OK, 200);
    assert_eq!(STATUS_INTERNAL_SERVER_ERROR, 500);
    assert_eq!(CONFIRMATION_BODY, "\"Venta procesada\"");
    assert_eq!(FAILURE_BODY, "Error enviando a Go");
    assert_eq!(FAILURE_LOG_PREFIX, "Error enviando a Go: ");
}

#[test]
fn no_reply_is_left_awaiting() {
    let outcomes = vec![
        DownstreamOutcome::Answered { status: 200 },
        DownstreamOutcome::Answered { status: 500 },
        failure("connection refused"),
    ];
    for outcome in outcomes {
        assert_ne!(conclude(outcome).phase, Phase::AwaitingDownstream);
    }
}

#[test]
fn fifty_interleaved_requests_are_answered_each_on_its_own() {
    let config = RelayConfig::from_environment(None);
    let mut pending: Vec<(usize, DownstreamOutcome)> = Vec::new();
    for i in 0..50usize {
        let record = SaleRecord {
            category: format!("categoria-{}", i % 7),
            product_id: format!("producto-{}", i),
            price_bits: (i as f64 * 1.25).to_bits(),
            quantity_sold: i as i32 - 25,
        };
        let request = forward(&config, record.clone());
        assert_eq!(request.record, record);
        assert_eq!(request.url, "http://go-api:8081/procesar");
        let outcome = if i % 3 == 0 {
            failure(&format!("fallo {}", i))
        } else {
            DownstreamOutcome::Answered { status: if i % 2 == 0 { 200 } else { 500 } }
        };
        pending.push((i, outcome));
    }
    pending.reverse();
    let mut replies: Vec<Option<Reply>> = vec![None; 50];
    for (i, outcome) in pending {
        replies[i] = Some(conclude(outcome));
    }
    for i in 0..50usize {
        let alone = if i % 3 == 0 {
            conclude(failure(&format!("fallo {}", i)))
        } else {
            conclude(DownstreamOutcome::Answered { status: 200 })
        };
        assert_eq!(replies[i], Some(alone));
    }
}
