use chain_scripts::chain::Network;
use chain_scripts::util::script::{
    get_innerscripts, innerscripts_from_last_push, last_push, Script, ScriptToAddr, ScriptToAsm, TxIn, TxOut,
};

fn p2pkh() -> Vec<u8> {
    let mut s = vec![0x76, 0xa9, 0x14];
    s.extend_from_slice(&[0u8; 20]);
    s.extend_from_slice(&[0x88, 0xac]);
    s
}

fn p2sh() -> Vec<u8> {
    let mut s = vec![0xa9, 0x14];
    s.extend_from_slice(&[0x33u8; 20]);
    s.push(0x87);
    s
}

fn p2wsh() -> Vec<u8> {
    let mut s = vec![0x00, 0x20];
    s.extend_from_slice(&[0x11u8; 32]);
    s
}

fn output(script_pubkey: Vec<u8>) -> TxOut {
    TxOut { value: 50_000, script_pubkey: Script::from_bytes(script_pubkey) }
}

fn input(script_sig: Vec<u8>, witness: Vec<Vec<u8>>) -> TxIn {
    TxIn { script_sig: Script::from_bytes(script_sig), witness }
}

fn push(data: &[u8]) -> Vec<u8> {
    let mut s = vec![data.len() as u8];
    s.extend_from_slice(data);
    s
}

fn some(bytes: Vec<u8>) -> Option<Script> {
    Some(Script::from_bytes(bytes))
}

#[test]
fn direct_p2pkh_spend_has_no_inner_scripts() {
    let sig = [push(&[0xaa; 71]), push(&[0x02; 33])].concat();
    let r = get_innerscripts(&input(sig, vec![]), &output(p2pkh()));
    assert_eq!(r.redeem_script, None);
    assert_eq!(r.witness_script, None);
}

#[test]
fn p2sh_spend_reveals_redeem_script() {
    let redeem = vec![0x51];
    let sig = [push(&[0xaa, 0xbb]), push(&redeem)].concat();
    let r = get_innerscripts(&input(sig, vec![vec![0x99]]), &output(p2sh()));
    assert_eq!(r.redeem_script, some(redeem));
    assert_eq!(r.witness_script, None);
}

#[test]
fn p2wsh_spend_reveals_witness_script() {
    let w = vec![0x52, 0x53, 0xae];
    let r = get_innerscripts(&input(vec![], vec![vec![], vec![0x01, 0x02], w.clone()]), &output(p2wsh()));
    assert_eq!(r.redeem_script, None);
    assert_eq!(r.witness_script, some(w));
}

#[test]
fn p2sh_p2wsh_spend_reveals_both() {
    let redeem = p2wsh();
    let w = vec![0x51, 0x21, 0x03];
    let sig = push(&redeem);
    let r = get_innerscripts(&input(sig, vec![vec![0x30, 0x44], w.clone()]), &output(p2sh()));
    assert_eq!(r.redeem_script, some(redeem));
    assert_eq!(r.witness_script, some(w));
}

#[test]
fn p2sh_with_empty_script_sig_has_no_inner_scripts() {
    let r = get_innerscripts(&input(vec![], vec![vec![0x51]]), &output(p2sh()));
    assert_eq!(r.redeem_script, None);
    assert_eq!(r.witness_script, None);
}

#[test]
fn p2sh_with_malformed_script_sig_has_no_redeem_script() {
    // announces five bytes of push data but carries two
    let r = get_innerscripts(&input(vec![0x05, 0x01, 0x02], vec![]), &output(p2sh()));
    assert_eq!(r.redeem_script, None);
    assert_eq!(r.witness_script, None);
}

#[test]
fn p2sh_with_final_opcode_has_no_redeem_script() {
    let sig = [push(&[0x51]), vec![0x76]].concat();
    let r = get_innerscripts(&input(sig, vec![]), &output(p2sh()));
    assert_eq!(r.redeem_script, None);
}

#[test]
fn p2wsh_with_empty_witness_has_no_witness_script() {
    let r = get_innerscripts(&input(vec![], vec![]), &output(p2wsh()));
    assert_eq!(r.redeem_script, None);
    assert_eq!(r.witness_script, None);
}

#[test]
fn p2sh_p2wsh_with_empty_witness_has_only_redeem_script() {
    let redeem = p2wsh();
    let r = get_innerscripts(&input(push(&redeem), vec![]), &output(p2sh()));
    assert_eq!(r.redeem_script, some(redeem));
    assert_eq!(r.witness_script, None);
}

#[test]
fn pushes_of_other_outputs_are_ignored() {
    let r = get_innerscripts(&input(push(&p2wsh()), vec![vec![0x51]]), &output(vec![0x51]));
    assert_eq!(r.redeem_script, None);
    assert_eq!(r.witness_script, None);
}

#[test]
fn classification_from_given_last_push() {
    let tin = input(vec![], vec![vec![0x07]]);
    let r = innerscripts_from_last_push(&tin, &output(p2sh()), Some(p2wsh()));
    assert_eq!(r.redeem_script, some(p2wsh()));
    assert_eq!(r.witness_script, some(vec![0x07]));
    let r = innerscripts_from_last_push(&tin, &output(p2sh()), Some(vec![0x51]));
    assert_eq!(r.redeem_script, some(vec![0x51]));
    assert_eq!(r.witness_script, None);
    let r = innerscripts_from_last_push(&tin, &output(p2pkh()), Some(vec![0x51]));
    assert_eq!(r.redeem_script, None);
    assert_eq!(r.witness_script, None);
}

#[test]
fn asm_of_p2pkh() {
    let text = Script::from_bytes(p2pkh()).to_asm();
    assert_eq!(
        text,
        "OP_DUP OP_HASH160 OP_PUSHBYTES_20 0000000000000000000000000000000000000000 OP_EQUALVERIFY OP_CHECKSIG"
    );
    assert_eq!(Script::from_bytes(vec![]).to_asm(), "");
}

#[test]
fn address_of_standard_and_nonstandard_scripts() {
    assert_eq!(
        Script::from_bytes(p2pkh()).to_address_str(Network::Bitcoin),
        Some("1111111111111111111114oLvT2".to_string())
    );
    assert!(Script::from_bytes(p2sh()).to_address_str(Network::Testnet).is_some());
    assert_eq!(Script::from_bytes(vec![0x51]).to_address_str(Network::Bitcoin), None);
}

#[test]
fn last_push_takes_only_the_final_instruction() {
    assert_eq!(last_push(Some(vec![Some(vec![0xaa]), Some(vec![0x51])])), Some(vec![0x51]));
    assert_eq!(last_push(Some(vec![Some(vec![0xaa]), None])), None);
    assert_eq!(last_push(Some(vec![None, Some(vec![])])), Some(vec![]));
    assert_eq!(last_push(Some(vec![])), None);
    assert_eq!(last_push(None), None);
}

#[test]
fn p2sh_redeem_script_is_the_last_of_several_pushes() {
    let sig = [vec![0x00], push(&[0x30; 72]), push(&[0x31; 72]), push(&[0x52, 0xae])].concat();
    let r = get_innerscripts(&input(sig, vec![]), &output(p2sh()));
    assert_eq!(r.redeem_script, some(vec![0x52, 0xae]));
}

#[test]
fn witness_programs_have_addresses() {
    assert!(Script::from_bytes(p2wsh()).to_address_str(Network::Bitcoin).is_some());
    let mut taproot = vec![0x51, 0x20];
    taproot.extend_from_slice(&[0x44u8; 32]);
    assert!(Script::from_bytes(taproot).to_address_str(Network::Signet).is_some());
    assert_eq!(Script::from_bytes(vec![0x00, 0x20, 0x01]).to_address_str(Network::Bitcoin), None);
}
