use jetstream_client::decoder::{PumpProgramIx, Pubkey, SellIxArgs, BUY_IX_DISCM, SELL_IX_DISCM};
use jetstream_client::report::{parsed_line, parsed_text_line, signature_line, transaction_line, ParsedInstructionKind};
use jetstream_client::transaction::{decode_transaction, RawInstruction, TransactionUpdate};

fn pair_buffer(tag: [u8; 8], a: u64, b: u64) -> Vec<u8> {
    let mut buf = tag.to_vec();
    buf.extend(a.to_le_bytes());
    buf.extend(b.to_le_bytes());
    buf
}

fn tx(instructions: Vec<Vec<u8>>) -> TransactionUpdate {
    TransactionUpdate {
        signature: vec![1, 2, 3],
        account_keys: vec![Pubkey::new_from_array([3u8; 32]), Pubkey::program_id()],
        instructions: instructions.into_iter().map(|data| RawInstruction { data }).collect(),
    }
}

#[test]
fn malformed_sibling_does_not_stop_sell() {
    let sell = pair_buffer(SELL_IX_DISCM, 10, 20);
    let malformed = vec![51, 230, 133, 164, 1, 127, 131, 173, 1, 2];
    let expected = vec![PumpProgramIx::Sell(SellIxArgs { amount: 10, min_sol_output: 20 })];
    assert_eq!(decode_transaction(&tx(vec![sell.clone(), malformed.clone()])), expected);
    assert_eq!(decode_transaction(&tx(vec![malformed, sell])), expected);
}

#[test]
fn decoded_instructions_keep_their_order() {
    let r = decode_transaction(&tx(vec![
        pair_buffer(BUY_IX_DISCM, 1, 2),
        vec![9, 9],
        pair_buffer(SELL_IX_DISCM, 3, 4),
    ]));
    assert_eq!(r.len(), 2);
    assert!(matches!(r[0], PumpProgramIx::Buy(_)));
    assert!(matches!(r[1], PumpProgramIx::Sell(_)));
}

#[test]
fn transaction_without_program_decodes_nothing() {
    let mut t = tx(vec![pair_buffer(SELL_IX_DISCM, 10, 20)]);
    t.account_keys = vec![Pubkey::new_from_array([3u8; 32])];
    assert!(decode_transaction(&t).is_empty());
    assert!(decode_transaction(&tx(Vec::new())).is_empty());
}

#[test]
fn transaction_line_names_the_signature() {
    assert_eq!(transaction_line(&vec![1, 2, 3]), "Jetstream - Transaction received - Signature: Ldp");
    assert_eq!(transaction_line(&vec![0, 0, 255]), "Jetstream - Transaction received - Signature: 115Q");
}

#[test]
fn parsed_line_lists_known_kinds() {
    let kinds = vec![Some(ParsedInstructionKind::Buy), None, Some(ParsedInstructionKind::SetParams)];
    assert_eq!(
        parsed_line(&vec![9], &kinds),
        Some("Jetstream Parsed - Transaction received - Signature: A, Instructions: buy, set_params".to_string())
    );
}

#[test]
fn parsed_line_edge_cases() {
    assert_eq!(parsed_line(&Vec::new(), &vec![Some(ParsedInstructionKind::Sell)]), None);
    assert_eq!(
        parsed_line(&vec![9], &Vec::new()),
        Some("Jetstream Parsed - Transaction received - Signature: A".to_string())
    );
    assert_eq!(
        parsed_line(&vec![9], &vec![None]),
        Some("Jetstream Parsed - Transaction received - Signature: A, Instructions: ".to_string())
    );
}

#[test]
fn kind_names() {
    assert_eq!(ParsedInstructionKind::Initialize.name(), "initialize");
    assert_eq!(ParsedInstructionKind::Create.name(), "create");
    assert_eq!(ParsedInstructionKind::Withdraw.name(), "withdraw");
}

#[test]
fn signature_line_formats_given_text() {
    assert_eq!(signature_line("2"), "Jetstream - Transaction received - Signature: 2");
    assert_eq!(signature_line(""), "Jetstream - Transaction received - Signature: ");
}

#[test]
fn parsed_text_line_formats_given_text() {
    let kinds = vec![Some(ParsedInstructionKind::Create), Some(ParsedInstructionKind::Sell), None];
    assert_eq!(
        parsed_text_line("2", &kinds),
        "Jetstream Parsed - Transaction received - Signature: 2, Instructions: create, sell"
    );
    assert_eq!(parsed_text_line("2", &Vec::new()), "Jetstream Parsed - Transaction received - Signature: 2");
}
