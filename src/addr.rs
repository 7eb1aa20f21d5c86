use bitcoin::hashes::Hash as HashBytes;
use bitcoin::util::address::Payload as ScriptPayload;
use bitcoin::{PubkeyHash, Script, ScriptHash, WPubkeyHash, WScriptHash};
use std::str::FromStr;
use vstd::prelude::*;

verus! {

/// The Bitcoin network an address string is written for.
#[derive(Clone, Copy, Debug, PartialEq, Eq, Structural, Hash)]
pub enum Network {
    Bitcoin,
    Testnet,
    Signet,
    Regtest,
}

/// What an output script pays to, independent of any network.
#[derive(Clone, Debug, PartialEq, Eq)]
pub enum Payload {
    /// Pay to the hash of a public key.
    PubkeyHash([u8; 20]),
    /// Pay to the hash of a script.
    ScriptHash([u8; 20]),
    /// Pay to a segwit program of the given version.
    WitnessProgram { version: u8, program: Vec<u8> },
}

/// The mathematical content of a [`Payload`].
pub enum PayloadView {
    PubkeyHash(Seq<u8>),
    ScriptHash(Seq<u8>),
    WitnessProgram { version: u8, program: Seq<u8> },
}

impl View for Payload {
    type V = PayloadView;

    open spec fn view(&self) -> PayloadView {
        match self {
            Payload::PubkeyHash(h) => PayloadView::PubkeyHash(h@),
            Payload::ScriptHash(h) => PayloadView::ScriptHash(h@),
            Payload::WitnessProgram { version, program } => PayloadView::WitnessProgram {
                version: *version,
                program: program@,
            },
        }
    }
}

/// A payload together with the network it is written for.
#[derive(Clone, Debug, PartialEq, Eq)]
pub struct Address {
    pub payload: Payload,
    pub network: Network,
}

/// The failures of address conversion.
#[derive(Clone, Copy, Debug, PartialEq, Eq, Structural)]
pub enum ConversionError {
    /// The string is not an address of any known form.
    ParseError,
    /// The payload has no representation in the target form.
    InvalidPayload,
}

/// The witness version fits the five bits that an address gives it.
pub open spec fn payload_wf(p: PayloadView) -> bool {
    p matches PayloadView::WitnessProgram { version, .. } ==> version < 32
}

/// The payload is one that an address string can carry and give back:
/// witness version at most 16, a program of 2 to 40 bytes, and for version 0
/// a program of 20 or 32 bytes.
pub open spec fn address_payload_valid(p: PayloadView) -> bool {
    match p {
        PayloadView::WitnessProgram { version, program } => {
            &&& version <= 16
            &&& 2 <= program.len() <= 40
            &&& version == 0 ==> (program.len() == 20 || program.len() == 32)
        },
        _ => true,
    }
}

/// The string that an address of payload `p` on `network` is written as.
pub uninterp spec fn address_text(p: PayloadView, network: Network) -> Seq<char>;

/// The payload of the address that a string reads as, if it reads as one.
pub uninterp spec fn parsed_payload(s: Seq<char>) -> Option<PayloadView>;

/// The declared error of address parsing.
#[verifier::external_type_specification]
#[verifier::external_body]
pub struct ExAddressError(bitcoin::util::address::Error);

/// Relies on `bitcoin::Address::from_str`, keeping the payload of the
/// address it reads.
#[verifier::external_body]
fn parse_payload(s: &str) -> (r: Result<Payload, bitcoin::util::address::Error>)
    ensures
        r is Ok <==> parsed_payload(s@) is Some,
        r matches Ok(p) ==> parsed_payload(s@) == Some(p@) && address_payload_valid(p@),
{
    let a = bitcoin::Address::from_str(s)?;
    Ok(match a.payload {
        ScriptPayload::PubkeyHash(h) => Payload::PubkeyHash(h.into_inner()),
        ScriptPayload::ScriptHash(h) => Payload::ScriptHash(h.into_inner()),
        ScriptPayload::WitnessProgram { version, program } => Payload::WitnessProgram {
            version: version.to_u8(),
            program,
        },
    })
}

/// Relies on the `Display` of `bitcoin::Address`, and on its `from_str`
/// reading back the payload of every address it writes whose payload is
/// valid for an address.
#[verifier::external_body]
fn render_address(a: &Address) -> (r: String)
    requires
        payload_wf(a.payload@),
    ensures
        r@ == address_text(a.payload@, a.network),
        address_payload_valid(a.payload@) ==> parsed_payload(r@) == Some(a.payload@),
{
    let payload = match &a.payload {
        Payload::PubkeyHash(h) => ScriptPayload::PubkeyHash(PubkeyHash::from_inner(*h)),
        Payload::ScriptHash(h) => ScriptPayload::ScriptHash(ScriptHash::from_inner(*h)),
        Payload::WitnessProgram { version, program } => ScriptPayload::WitnessProgram {
            version: bitcoin::bech32::u5::try_from_u8(*version).unwrap(),
            program: program.clone(),
        },
    };
    let network = match a.network {
        Network::Bitcoin => bitcoin::Network::Bitcoin,
        Network::Testnet => bitcoin::Network::Testnet,
        Network::Signet => bitcoin::Network::Signet,
        Network::Regtest => bitcoin::Network::Regtest,
    };
    bitcoin::Address { payload, network }.to_string()
}

/// The payload that a script pays to, read as `Payload::from_script` of
/// rust-bitcoin reads it: P2PKH, then P2SH, then a witness program (a
/// version opcode `0` or `0x51..=0x60`, then one push of 2 to 40 bytes).
pub open spec fn script_payload(s: Seq<u8>) -> Option<PayloadView> {
    if s.len() == 25 && s[0] == 0x76 && s[1] == 0xa9 && s[2] == 0x14 && s[23] == 0x88 && s[24]
        == 0xac {
        Some(PayloadView::PubkeyHash(s.subrange(3, 23)))
    } else if s.len() == 23 && s[0] == 0xa9 && s[1] == 0x14 && s[22] == 0x87 {
        Some(PayloadView::ScriptHash(s.subrange(2, 22)))
    } else if 4 <= s.len() <= 42 && (s[0] == 0 || 0x51 <= s[0] <= 0x60) && 2 <= s[1] <= 40 && s.len()
        - 2 == s[1] {
        Some(
            PayloadView::WitnessProgram {
                version: if s[0] > 0x50 {
                    (s[0] - 0x50) as u8
                } else {
                    s[0]
                },
                program: s.subrange(2, s.len() as int),
            },
        )
    } else {
        None
    }
}

/// Relies on `bitcoin::Script::new_p2pkh`: `OP_DUP OP_HASH160 <hash>
/// OP_EQUALVERIFY OP_CHECKSIG`.
#[verifier::external_body]
fn p2pkh_script(hash: &[u8; 20]) -> (r: Vec<u8>)
    ensures
        r@ == seq![0x76u8, 0xa9u8, 0x14u8] + hash@ + seq![0x88u8, 0xacu8],
{
    Script::new_p2pkh(&PubkeyHash::from_inner(*hash)).into_bytes()
}

/// Relies on `bitcoin::Script::new_p2sh`: `OP_HASH160 <hash> OP_EQUAL`.
#[verifier::external_body]
fn p2sh_script(hash: &[u8; 20]) -> (r: Vec<u8>)
    ensures
        r@ == seq![0xa9u8, 0x14u8] + hash@ + seq![0x87u8],
{
    Script::new_p2sh(&ScriptHash::from_inner(*hash)).into_bytes()
}

/// Relies on `bitcoin::Script::new_v0_wpkh`: `OP_0 <20-byte hash>`.
#[verifier::external_body]
fn v0_wpkh_script(hash: &[u8; 20]) -> (r: Vec<u8>)
    ensures
        r@ == seq![0x00u8, 0x14u8] + hash@,
{
    Script::new_v0_wpkh(&WPubkeyHash::from_inner(*hash)).into_bytes()
}

/// Relies on `bitcoin::Script::new_v0_wsh`: `OP_0 <32-byte hash>`.
#[verifier::external_body]
fn v0_wsh_script(hash: &[u8; 32]) -> (r: Vec<u8>)
    ensures
        r@ == seq![0x00u8, 0x20u8] + hash@,
{
    Script::new_v0_wsh(&WScriptHash::from_inner(*hash)).into_bytes()
}

/// Relies on `bitcoin::util::address::Payload::from_script`, which reads a
/// script as [`script_payload`] says.
#[verifier::external_body]
fn payload_from_script(script: Vec<u8>) -> (r: Option<Payload>)
    ensures
        r is Some <==> script_payload(script@) is Some,
        r matches Some(p) ==> script_payload(script@) == Some(p@),
{
    let p = ScriptPayload::from_script(&Script::from(script))?;
    Some(match p {
        ScriptPayload::PubkeyHash(h) => Payload::PubkeyHash(h.into_inner()),
        ScriptPayload::ScriptHash(h) => Payload::ScriptHash(h.into_inner()),
        ScriptPayload::WitnessProgram { version, program } => Payload::WitnessProgram {
            version: version.to_u8(),
            program,
        },
    })
}

/// A value that stands for a payload, and can be read from and written as
/// an address string.
pub trait PartialAddress: Sized {
    /// The payload that this value stands for.
    spec fn payload_of(&self) -> PayloadView;

    /// Whether a payload has a representation among these values.
    spec fn represents(p: PayloadView) -> bool;

    /// The payload that the representation of `p` stands for.
    spec fn represented(p: PayloadView) -> PayloadView;

    /// Whether this value can be written as an address.
    spec fn encodable(&self) -> bool;

    /// Takes the representation of `payload`.
    fn from_payload(payload: Payload) -> (r: Result<Self, ConversionError>)
        ensures
            r is Ok <==> Self::represents(payload@),
            r matches Ok(a) ==> a.payload_of() == Self::represented(payload@),
            r matches Err(e) ==> e == ConversionError::InvalidPayload,
    ;

    /// Reads an address string and takes the representation of its payload.
    fn decode_str(btc_address: &str) -> (r: Result<Self, ConversionError>)
        ensures
            match parsed_payload(btc_address@) {
                None => r == Err::<Self, ConversionError>(ConversionError::ParseError),
                Some(p) => {
                    &&& r is Ok <==> Self::represents(p)
                    &&& r matches Ok(a) ==> a.payload_of() == Self::represented(p)
                    &&& r matches Err(e) ==> e == ConversionError::InvalidPayload
                },
            },
    ;

    /// The address of this value's payload on `network`.
    fn to_address(&self, network: Network) -> (r: Result<Address, ConversionError>)
        ensures
            r is Ok <==> self.encodable(),
            r matches Ok(a) ==> a.payload@ == self.payload_of() && a.network == network
                && payload_wf(a.payload@),
            r matches Err(e) ==> e == ConversionError::InvalidPayload,
    ;

    /// The string of this value's address on `network`.
    fn encode_str(&self, network: Network) -> (r: Result<String, ConversionError>)
        ensures
            r is Ok <==> self.encodable(),
            r matches Ok(s) ==> s@ == address_text(self.payload_of(), network),
            r matches Ok(s) ==> address_payload_valid(self.payload_of()) ==> parsed_payload(s@)
                == Some(self.payload_of()),
            r matches Err(e) ==> e == ConversionError::InvalidPayload,
    {
        let address = self.to_address(network)?;
        Ok(render_address(&address))
    }
}

/// A copy of a payload.
fn copy_payload(p: &Payload) -> (r: Payload)
    ensures
        r@ == p@,
{
    match p {
        Payload::PubkeyHash(h) => Payload::PubkeyHash(*h),
        Payload::ScriptHash(h) => Payload::ScriptHash(*h),
        Payload::WitnessProgram { version, program } => {
            let program = program.clone();
            assert(program@ =~= p->program@);
            Payload::WitnessProgram { version: *version, program }
        },
    }
}

impl PartialAddress for Payload {
    open spec fn payload_of(&self) -> PayloadView {
        self@
    }

    open spec fn represents(p: PayloadView) -> bool {
        true
    }

    open spec fn represented(p: PayloadView) -> PayloadView {
        p
    }

    open spec fn encodable(&self) -> bool {
        payload_wf(self@)
    }

    fn from_payload(payload: Payload) -> (r: Result<Self, ConversionError>) {
        Ok(payload)
    }

    fn decode_str(btc_address: &str) -> (r: Result<Self, ConversionError>) {
        match parse_payload(btc_address) {
            Ok(p) => Ok(p),
            Err(_) => Err(ConversionError::ParseError),
        }
    }

    fn to_address(&self, network: Network) -> (r: Result<Address, ConversionError>) {
        if let Payload::WitnessProgram { version, .. } = self {
            if *version >= 32 {
                return Err(ConversionError::InvalidPayload);
            }
        }
        Ok(Address { network, payload: copy_payload(self) })
    }
}

/// The compact address form used on the bridge's ledger.
#[derive(Clone, Copy, Debug, PartialEq, Eq, Hash)]
pub enum BtcAddress {
    P2PKH([u8; 20]),
    P2SH([u8; 20]),
    P2WPKHv0([u8; 20]),
    P2WSHv0([u8; 32]),
}

/// The first twenty bytes of `v` as an array.
fn hash20(v: &Vec<u8>) -> (r: [u8; 20])
    requires
        v@.len() == 20,
    ensures
        r@ == v@,
{
    let mut h = [0u8; 20];
    let mut i: usize = 0;
    while i < 20
        invariant
            v@.len() == 20,
            i <= 20,
            h@.len() == 20,
            forall|j: int| 0 <= j < i ==> h@[j] == v@[j],
        decreases 20 - i,
    {
        h[i] = v[i];
        i += 1;
    }
    assert(h@ =~= v@);
    h
}

impl PartialAddress for BtcAddress {
    open spec fn payload_of(&self) -> PayloadView {
        match self {
            BtcAddress::P2PKH(h) => PayloadView::PubkeyHash(h@),
            BtcAddress::P2SH(h) => PayloadView::ScriptHash(h@),
            BtcAddress::P2WPKHv0(h) => PayloadView::WitnessProgram { version: 0, program: h@ },
            BtcAddress::P2WSHv0(h) => PayloadView::WitnessProgram { version: 0, program: h@ },
        }
    }

    /// Key and script hashes of twenty bytes, and twenty-byte witness
    /// programs of any version; thirty-two-byte programs are not taken.
    open spec fn represents(p: PayloadView) -> bool {
        match p {
            PayloadView::PubkeyHash(h) => h.len() == 20,
            PayloadView::ScriptHash(h) => h.len() == 20,
            PayloadView::WitnessProgram { program, .. } => program.len() == 20,
        }
    }

    open spec fn represented(p: PayloadView) -> PayloadView {
        match p {
            PayloadView::WitnessProgram { program, .. } => PayloadView::WitnessProgram {
                version: 0,
                program,
            },
            _ => p,
        }
    }

    open spec fn encodable(&self) -> bool {
        true
    }

    fn from_payload(payload: Payload) -> (r: Result<Self, ConversionError>) {
        match payload {
            Payload::PubkeyHash(hash) => Ok(BtcAddress::P2PKH(hash)),
            Payload::ScriptHash(hash) => Ok(BtcAddress::P2SH(hash)),
            Payload::WitnessProgram { version: _, program } => {
                if program.len() == 20 {
                    Ok(BtcAddress::P2WPKHv0(hash20(&program)))
                } else {
                    Err(ConversionError::InvalidPayload)
                }
            },
        }
    }

    fn decode_str(btc_address: &str) -> (r: Result<Self, ConversionError>) {
        match parse_payload(btc_address) {
            Ok(p) => Self::from_payload(p),
            Err(_) => Err(ConversionError::ParseError),
        }
    }

    fn to_address(&self, network: Network) -> (r: Result<Address, ConversionError>) {
        let script = match self {
            BtcAddress::P2PKH(hash) => p2pkh_script(hash),
            BtcAddress::P2SH(hash) => p2sh_script(hash),
            BtcAddress::P2WPKHv0(hash) => v0_wpkh_script(hash),
            BtcAddress::P2WSHv0(hash) => v0_wsh_script(hash),
        };
        proof {
            let s = script@;
            match self {
                BtcAddress::P2PKH(h) => assert(s.subrange(3, 23) =~= h@),
                BtcAddress::P2SH(h) => assert(s.subrange(2, 22) =~= h@),
                BtcAddress::P2WPKHv0(h) => assert(s.subrange(2, s.len() as int) =~= h@),
                BtcAddress::P2WSHv0(h) => assert(s.subrange(2, s.len() as int) =~= h@),
            }
        }
        match payload_from_script(script) {
            Some(payload) => Ok(Address { payload, network }),
            None => Err(ConversionError::InvalidPayload),
        }
    }
}

/// Round trip of a payload through an address string: a payload that an
/// address can carry, written for any network and read back, is the same
/// payload.
pub proof fn lemma_payload_round_trip(
    p: Payload,
    network: Network,
    encoded: Result<String, ConversionError>,
    text: &str,
    decoded: Result<Payload, ConversionError>,
)
    requires
        address_payload_valid(p@),
        call_ensures(<Payload as PartialAddress>::encode_str, (&p, network), encoded),
        encoded is Ok ==> encoded->Ok_0@ == text@,
        call_ensures(<Payload as PartialAddress>::decode_str, (text,), decoded),
    ensures
        encoded is Ok,
        decoded matches Ok(q) && q@ == p@,
{
}

/// Round trip of a compact address through an address string: the compact
/// address taken from a payload, written for any network and read back, is
/// the same compact address.
pub proof fn lemma_btc_address_round_trip(
    p: Payload,
    made: Result<BtcAddress, ConversionError>,
    network: Network,
    encoded: Result<String, ConversionError>,
    text: &str,
    decoded: Result<BtcAddress, ConversionError>,
)
    requires
        call_ensures(<BtcAddress as PartialAddress>::from_payload, (p,), made),
        made is Ok,
        call_ensures(<BtcAddress as PartialAddress>::encode_str, (&made->Ok_0, network), encoded),
        encoded is Ok ==> encoded->Ok_0@ == text@,
        call_ensures(<BtcAddress as PartialAddress>::decode_str, (text,), decoded),
    ensures
        encoded is Ok,
        decoded == made,
{
    let a = made->Ok_0;
    let b = decoded->Ok_0;
    match a {
        BtcAddress::P2PKH(h) => assert(b->P2PKH_0 =~= h),
        BtcAddress::P2SH(h) => assert(b->P2SH_0 =~= h),
        BtcAddress::P2WPKHv0(h) => assert(b->P2WPKHv0_0 =~= h),
        BtcAddress::P2WSHv0(h) => {},
    }
}

} // verus!
