//! Recovery of the redeem script and witness script that a spending input
//! reveals for the output it spends, by matching the output against the
//! P2SH and P2WSH templates.

use vstd::prelude::*;
use crate::chain::Network;
use bitcoin::network::constants::Network as BNetwork;
use bitcoin::blockdata::script::Instruction;

verus! {

/// A serialized script.
#[derive(Debug, Clone, PartialEq, Eq)]
pub struct Script {
    pub bytes: Vec<u8>,
}

impl View for Script {
    type V = Seq<u8>;

    open spec fn view(&self) -> Seq<u8> {
        self.bytes@
    }
}

impl Script {
    /// The script made of `bytes`.
    pub fn from_bytes(bytes: Vec<u8>) -> (r: Script)
        ensures
            r@ == bytes@,
    {
        Script { bytes }
    }

    /// The serialized bytes of the script.
    pub fn as_bytes(&self) -> (r: &[u8])
        ensures
            r@ == self@,
    {
        self.bytes.as_slice()
    }
}

/// `OP_HASH160 <20 bytes> OP_EQUAL`: an output that commits to a redeem script.
pub open spec fn is_p2sh_template(s: Seq<u8>) -> bool {
    &&& s.len() == 23
    &&& s[0] == 0xa9
    &&& s[1] == 0x14
    &&& s[22] == 0x87
}

/// `OP_0 <32 bytes>`: a version-0 witness program that commits to a witness script.
pub open spec fn is_p2wsh_template(s: Seq<u8>) -> bool {
    &&& s.len() == 34
    &&& s[0] == 0x00
    &&& s[1] == 0x20
}

/// `OP_DUP OP_HASH160 <20 bytes> OP_EQUALVERIFY OP_CHECKSIG`: a plain key-hash output.
pub open spec fn is_p2pkh_template(s: Seq<u8>) -> bool {
    &&& s.len() == 25
    &&& s[0] == 0x76
    &&& s[1] == 0xa9
    &&& s[2] == 0x14
    &&& s[23] == 0x88
    &&& s[24] == 0xac
}

/// Relies on bitcoin's `Script::is_p2sh`, which tests exactly the P2SH template.
#[verifier::external_body]
fn script_is_p2sh(s: &[u8]) -> (r: bool)
    ensures
        r == is_p2sh_template(s@),
{
    bitcoin::blockdata::script::Script::from(s.to_vec()).is_p2sh()
}

/// Relies on bitcoin's `Script::is_v0_p2wsh`, which tests exactly the P2WSH
/// template (its witness version is read from the first byte, `OP_0` for zero).
#[verifier::external_body]
fn script_is_v0_p2wsh(s: &[u8]) -> (r: bool)
    ensures
        r == is_p2wsh_template(s@),
{
    bitcoin::blockdata::script::Script::from(s.to_vec()).is_v0_p2wsh()
}

/// The instructions of a script, in order, each a data push (`Some` of its
/// payload) or an opcode (`None`); `None` as a whole when the bytes do not
/// parse.
pub uninterp spec fn instructions_of(script: Seq<u8>) -> Option<Seq<Option<Seq<u8>>>>;

/// Relies on bitcoin's `Script::instructions`, which parses the script into
/// opcodes and data pushes, yields nothing on an empty script, and ends with
/// an error where the bytes do not parse.
#[verifier::external_body]
fn parsed_instructions(s: &[u8]) -> (r: Option<Vec<Option<Vec<u8>>>>)
    ensures
        instructions_view(r) == instructions_of(s@),
        s@.len() == 0 ==> instructions_view(r) == Some(Seq::<Option<Seq<u8>>>::empty()),
{
    let script = bitcoin::blockdata::script::Script::from(s.to_vec());
    let items = script.instructions().map(|i| i.map(|ins| match ins {
        Instruction::PushBytes(b) => Some(b.to_vec()),
        Instruction::Op(_) => None,
    }));
    items.collect::<Result<Vec<Option<Vec<u8>>>, _>>().ok()
}

/// The view of a parsed instruction list.
pub open spec fn instructions_view(o: Option<Vec<Option<Vec<u8>>>>) -> Option<
    Seq<Option<Seq<u8>>>,
> {
    match o {
        Some(items) => Some(items@.map_values(|item: Option<Vec<u8>>| bytes_view(item))),
        None => None,
    }
}

/// The payload of the last instruction when it is a data push. Earlier
/// pushes never count; an empty script, a final opcode or bytes that do not
/// parse give none.
pub open spec fn last_push_in(parsed: Option<Seq<Option<Seq<u8>>>>) -> Option<Seq<u8>> {
    match parsed {
        Some(items) => if items.len() > 0 {
            items.last()
        } else {
            None
        },
        None => None,
    }
}

/// The payload of the last instruction of a parsed script, when that
/// instruction is a data push.
pub fn last_push(parsed: Option<Vec<Option<Vec<u8>>>>) -> (r: Option<Vec<u8>>)
    ensures
        bytes_view(r) == last_push_in(instructions_view(parsed)),
{
    match parsed {
        Some(mut items) => {
            let ghost before = items@;
            match items.pop() {
                Some(item) => {
                    assert(before.map_values(|item: Option<Vec<u8>>| bytes_view(item)).last()
                        == bytes_view(item));
                    item
                },
                None => None,
            }
        },
        None => None,
    }
}

/// The view of an optional byte vector.
pub open spec fn bytes_view(o: Option<Vec<u8>>) -> Option<Seq<u8>> {
    match o {
        Some(v) => Some(v@),
        None => None,
    }
}

/// The view of an optional script.
pub open spec fn script_view(o: Option<Script>) -> Option<Seq<u8>> {
    match o {
        Some(s) => Some(s@),
        None => None,
    }
}

/// The assembly text of a script: opcode names and hex-encoded pushes.
pub uninterp spec fn asm_of(script: Seq<u8>) -> Seq<char>;

/// Relies on bitcoin's `Script::bytes_to_asm`, which renders each parsed
/// instruction as its mnemonic or its pushed bytes in hex, and renders an
/// empty script as empty text.
#[verifier::external_body]
fn bytes_to_asm(s: &[u8]) -> (r: String)
    ensures
        r@ == asm_of(s@),
        s@.len() == 0 ==> r@.len() == 0,
{
    bitcoin::blockdata::script::Script::bytes_to_asm(s)
}

/// The address text of an output script on a network, if the script has a
/// standard address form.
pub uninterp spec fn address_of(script: Seq<u8>, network: BNetwork) -> Option<Seq<char>>;

/// A version byte (`OP_0` or `OP_1` to `OP_16`) followed by one push of 2 to
/// 40 bytes that fills the rest of the script.
pub open spec fn is_witness_program_template(s: Seq<u8>) -> bool {
    &&& 4 <= s.len() <= 42
    &&& (s[0] == 0x00 || (0x51 <= s[0] && s[0] <= 0x60))
    &&& 0x02 <= s[1] && s[1] <= 0x28
    &&& s.len() - 2 == s[1]
}

/// Whether a script has a standard address form.
pub open spec fn has_address_form(s: Seq<u8>) -> bool {
    is_p2pkh_template(s) || is_p2sh_template(s) || is_witness_program_template(s)
}

/// Relies on bitcoin's `Address::from_script` and the address's `Display`:
/// an address exists exactly for the P2PKH, P2SH and witness-program
/// templates.
#[verifier::external_body]
fn address_text(s: &[u8], network: BNetwork) -> (r: Option<String>)
    ensures
        string_view(r) == address_of(s@, network),
        r is Some <==> has_address_form(s@),
{
    let script = bitcoin::blockdata::script::Script::from(s.to_vec());
    bitcoin::util::address::Address::from_script(&script, network).map(|a| a.to_string())
}

/// The view of an optional string.
pub open spec fn string_view(o: Option<String>) -> Option<Seq<char>> {
    match o {
        Some(s) => Some(s@),
        None => None,
    }
}

/// Rendering of a script as assembly text.
pub trait ScriptToAsm {
    fn to_asm(&self) -> String;
}

impl ScriptToAsm for Script {
    fn to_asm(&self) -> (r: String)
        ensures
            r@ == asm_of(self@),
            self@.len() == 0 ==> r@.len() == 0,
    {
        bytes_to_asm(self.as_bytes())
    }
}

/// Rendering of an output script as an address of a network.
pub trait ScriptToAddr {
    fn to_address_str(&self, network: Network) -> Option<String>;
}

impl ScriptToAddr for Script {
    fn to_address_str(&self, network: Network) -> (r: Option<String>)
        ensures
            string_view(r) == address_of(self@, network.to_consensus()),
            r is Some <==> has_address_form(self@),
    {
        address_text(self.as_bytes(), BNetwork::from(network))
    }
}

/// The part of a spending input that classification reads.
#[derive(Debug, Clone, PartialEq, Eq)]
pub struct TxIn {
    pub script_sig: Script,
    pub witness: Vec<Vec<u8>>,
}

impl TxIn {
    /// The witness stack, bottom item first.
    pub open spec fn witness_view(&self) -> Seq<Seq<u8>> {
        self.witness@.map_values(|item: Vec<u8>| item@)
    }
}

/// The part of a spent output that classification reads.
#[derive(Debug, Clone, PartialEq, Eq)]
pub struct TxOut {
    pub value: u64,
    pub script_pubkey: Script,
}

/// The scripts that an input revealed for the output it spends.
#[derive(Debug, Clone, PartialEq, Eq)]
pub struct InnerScripts {
    pub redeem_script: Option<Script>,
    pub witness_script: Option<Script>,
}

impl View for InnerScripts {
    type V = (Option<Seq<u8>>, Option<Seq<u8>>);

    open spec fn view(&self) -> (Option<Seq<u8>>, Option<Seq<u8>>) {
        (script_view(self.redeem_script), script_view(self.witness_script))
    }
}

/// The redeem script: the last push of the signature script, for a P2SH output.
pub open spec fn redeem_script_of(script_pubkey: Seq<u8>, last_push: Option<Seq<u8>>) -> Option<
    Seq<u8>,
> {
    if is_p2sh_template(script_pubkey) {
        last_push
    } else {
        None
    }
}

/// The witness script: the top of the witness stack, for a P2WSH output or
/// a P2SH output whose redeem script is itself P2WSH.
pub open spec fn witness_script_of(
    script_pubkey: Seq<u8>,
    redeem_script: Option<Seq<u8>>,
    witness: Seq<Seq<u8>>,
) -> Option<Seq<u8>> {
    let wrapped = match redeem_script {
        Some(s) => is_p2wsh_template(s),
        None => false,
    };
    if (is_p2wsh_template(script_pubkey) || wrapped) && witness.len() > 0 {
        Some(witness.last())
    } else {
        None
    }
}

/// The redeem and witness scripts for an output with `script_pubkey`, spent
/// by an input whose signature script ends with the push `last_push` and
/// whose witness stack is `witness`.
pub open spec fn classify(
    script_pubkey: Seq<u8>,
    last_push: Option<Seq<u8>>,
    witness: Seq<Seq<u8>>,
) -> (Option<Seq<u8>>, Option<Seq<u8>>) {
    let redeem_script = redeem_script_of(script_pubkey, last_push);
    (redeem_script, witness_script_of(script_pubkey, redeem_script, witness))
}

/// The scripts that `txin` reveals for `prevout`, given the last data push
/// of its signature script.
pub fn innerscripts_from_last_push(
    txin: &TxIn,
    prevout: &TxOut,
    last_push: Option<Vec<u8>>,
) -> (r: InnerScripts)
    ensures
        r@ == classify(prevout.script_pubkey@, bytes_view(last_push), txin.witness_view()),
{
    let redeem_script = if script_is_p2sh(prevout.script_pubkey.as_bytes()) {
        match last_push {
            Some(bytes) => Some(Script::from_bytes(bytes)),
            None => None,
        }
    } else {
        None
    };
    let wrapped = match &redeem_script {
        Some(s) => script_is_v0_p2wsh(s.as_bytes()),
        None => false,
    };
    let witness_script = if script_is_v0_p2wsh(prevout.script_pubkey.as_bytes()) || wrapped {
        let n = txin.witness.len();
        if n > 0 {
            Some(Script::from_bytes(txin.witness[n - 1].clone()))
        } else {
            None
        }
    } else {
        None
    };
    InnerScripts { redeem_script, witness_script }
}

/// The witness script for a P2WSH or P2SH-wrapped P2WSH spend, or the
/// redeem script for a P2SH spend. Nothing that does not match these
/// templates is an error: such a script is simply absent.
pub fn get_innerscripts(txin: &TxIn, prevout: &TxOut) -> (r: InnerScripts)
    ensures
        r@ == classify(
            prevout.script_pubkey@,
            last_push_in(instructions_of(txin.script_sig@)),
            txin.witness_view(),
        ),
        is_p2sh_template(prevout.script_pubkey@) && txin.script_sig@.len() == 0 ==> r@ == (
            None::<Seq<u8>>,
            None::<Seq<u8>>,
        ),
{
    let last_push = if script_is_p2sh(prevout.script_pubkey.as_bytes()) {
        last_push(parsed_instructions(txin.script_sig.as_bytes()))
    } else {
        None
    };
    innerscripts_from_last_push(txin, prevout, last_push)
}

/// A spend of a P2PKH output reveals neither a redeem script nor a witness script.
pub proof fn lemma_direct_spend(
    script_pubkey: Seq<u8>,
    last_push: Option<Seq<u8>>,
    witness: Seq<Seq<u8>>,
)
    requires
        is_p2pkh_template(script_pubkey),
    ensures
        classify(script_pubkey, last_push, witness) == (None::<Seq<u8>>, None::<Seq<u8>>),
{
}

/// A spend of a P2SH output whose signature script ends with a push of a
/// script that is not P2WSH reveals that script as the redeem script, and no
/// witness script.
pub proof fn lemma_p2sh_spend(script_pubkey: Seq<u8>, redeem_script: Seq<u8>, witness: Seq<Seq<u8>>)
    requires
        is_p2sh_template(script_pubkey),
        !is_p2wsh_template(redeem_script),
    ensures
        classify(script_pubkey, Some(redeem_script), witness) == (
            Some(redeem_script),
            None::<Seq<u8>>,
        ),
{
}

/// A spend of a native P2WSH output reveals the top of the witness stack as
/// the witness script, and no redeem script.
pub proof fn lemma_p2wsh_spend(
    script_pubkey: Seq<u8>,
    last_push: Option<Seq<u8>>,
    witness: Seq<Seq<u8>>,
)
    requires
        is_p2wsh_template(script_pubkey),
        witness.len() > 0,
    ensures
        classify(script_pubkey, last_push, witness) == (None::<Seq<u8>>, Some(witness.last())),
{
}

/// A spend of a P2SH output whose redeem script is P2WSH reveals both the
/// redeem script and the top of the witness stack as the witness script.
pub proof fn lemma_p2sh_p2wsh_spend(
    script_pubkey: Seq<u8>,
    redeem_script: Seq<u8>,
    witness: Seq<Seq<u8>>,
)
    requires
        is_p2sh_template(script_pubkey),
        is_p2wsh_template(redeem_script),
        witness.len() > 0,
    ensures
        classify(script_pubkey, Some(redeem_script), witness) == (
            Some(redeem_script),
            Some(witness.last()),
        ),
{
}

/// A spend of a P2SH output whose signature script holds no final push
/// reveals neither script.
pub proof fn lemma_p2sh_without_push(script_pubkey: Seq<u8>, witness: Seq<Seq<u8>>)
    requires
        is_p2sh_template(script_pubkey),
    ensures
        classify(script_pubkey, None, witness) == (None::<Seq<u8>>, None::<Seq<u8>>),
{
}

} // verus!
