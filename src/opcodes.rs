use vstd::prelude::*;
use vstd::string::*;

verus! {

/// PUSH0, the first opcode of the push family; it pushes zero and takes no immediate bytes.
pub const PUSH0: u8 = 0x5f;

/// PUSH1, the first push opcode that is followed by immediate bytes.
pub const PUSH1: u8 = 0x60;

/// PUSH32, the last opcode of the push family.
pub const PUSH32: u8 = 0x7f;

/// JUMPDEST, the only opcode that a jump may land on.
pub const JUMPDEST: u8 = 0x5b;

/// DIFFICULTY, also reachable by the names RANDOM and PREVRANDAO.
pub const DIFFICULTY: u8 = 0x44;

/// A byte is a defined instruction unless it lies in one of the undefined ranges.
pub open spec fn is_defined(b: u8) -> bool {
    !(0x0c <= b <= 0x0f || 0x1e <= b <= 0x1f || 0x21 <= b <= 0x2f || 0x4b <= b <= 0x4f || 0xa5
        <= b <= 0xef || 0xf6 <= b <= 0xf9 || 0xfb <= b <= 0xfc)
}

/// The push family is the contiguous range PUSH0..=PUSH32.
pub open spec fn is_push_byte(b: u8) -> bool {
    PUSH0 <= b <= PUSH32
}

/// Number of immediate bytes that follow an opcode: `b - PUSH1 + 1` for PUSH1..=PUSH32, else none.
pub open spec fn push_width_of(b: u8) -> nat {
    if PUSH1 <= b <= PUSH32 {
        (b - PUSH1 + 1) as nat
    } else {
        0
    }
}

/// `s` names the opcode `b`: its canonical mnemonic, or one of the two aliases of DIFFICULTY.
pub open spec fn names_byte(s: Seq<char>, b: u8) -> bool {
    (is_defined(b) && s == mnemonic(b)) || (b == DIFFICULTY && (s == "RANDOM"@ || s
        == "PREVRANDAO"@))
}

spec fn char_at(s: Seq<char>, i: int) -> int {
    if i < s.len() {
        s[i] as int
    } else {
        0
    }
}

/// A number that determines the first fourteen characters and the length of a text.
spec fn name_code(s: Seq<char>) -> int {
    char_at(s, 0) + 128 * (char_at(s, 1) + 128 * (char_at(s, 2) + 128 * (char_at(s, 3) + 128 * (
    char_at(s, 4) + 128 * (char_at(s, 5) + 128 * (char_at(s, 6) + 128 * (char_at(s, 7) + 128 * (
    char_at(s, 8) + 128 * (char_at(s, 9) + 128 * (char_at(s, 10) + 128 * (char_at(s, 11) + 128 * (
    char_at(s, 12) + 128 * (char_at(s, 13) + 128 * s.len())))))))))))))
}

/// The mnemonic of each defined opcode byte; the empty text for an undefined byte.
pub open spec fn mnemonic(b: u8) -> Seq<char> {
    match b {
        0x00 => "STOP"@,
        0x01 => "ADD"@,
        0x02 => "MUL"@,
        0x03 => "SUB"@,
        0x04 => "DIV"@,
        0x05 => "SDIV"@,
        0x06 => "MOD"@,
        0x07 => "SMOD"@,
        0x08 => "ADDMOD"@,
        0x09 => "MULMOD"@,
        0x0a => "EXP"@,
        0x0b => "SIGNEXTEND"@,
        0x10 => "LT"@,
        0x11 => "GT"@,
        0x12 => "SLT"@,
        0x13 => "SGT"@,
        0x14 => "EQ"@,
        0x15 => "ISZERO"@,
        0x16 => "AND"@,
        0x17 => "OR"@,
        0x18 => "XOR"@,
        0x19 => "NOT"@,
        0x1a => "BYTE"@,
        0x1b => "SHL"@,
        0x1c => "SHR"@,
        0x1d => "SAR"@,
        0x20 => "KECCAK256"@,
        0x30 => "ADDRESS"@,
        0x31 => "BALANCE"@,
        0x32 => "ORIGIN"@,
        0x33 => "CALLER"@,
        0x34 => "CALLVALUE"@,
        0x35 => "CALLDATALOAD"@,
        0x36 => "CALLDATASIZE"@,
        0x37 => "CALLDATACOPY"@,
        0x38 => "CODESIZE"@,
        0x39 => "CODECOPY"@,
        0x3a => "GASPRICE"@,
        0x3b => "EXTCODESIZE"@,
        0x3c => "EXTCODECOPY"@,
        0x3d => "RETURNDATASIZE"@,
        0x3e => "RETURNDATACOPY"@,
        0x3f => "EXTCODEHASH"@,
        0x40 => "BLOCKHASH"@,
        0x41 => "COINBASE"@,
        0x42 => "TIMESTAMP"@,
        0x43 => "NUMBER"@,
        0x44 => "DIFFICULTY"@,
        0x45 => "GASLIMIT"@,
        0x46 => "CHAINID"@,
        0x47 => "SELFBALANCE"@,
        0x48 => "BASEFEE"@,
        0x49 => "BLOBHASH"@,
        0x4a => "BLOBBASEFEE"@,
        0x50 => "POP"@,
        0x51 => "MLOAD"@,
        0x52 => "MSTORE"@,
        0x53 => "MSTORE8"@,
        0x54 => "SLOAD"@,
        0x55 => "SSTORE"@,
        0x56 => "JUMP"@,
        0x57 => "JUMPI"@,
        0x58 => "PC"@,
        0x59 => "MSIZE"@,
        0x5a => "GAS"@,
        0x5b => "JUMPDEST"@,
        0x5c => "TLOAD"@,
        0x5d => "TSTORE"@,
        0x5e => "MCOPY"@,
        0x5f => "PUSH0"@,
        0x60 => "PUSH1"@,
        0x61 => "PUSH2"@,
        0x62 => "PUSH3"@,
        0x63 => "PUSH4"@,
        0x64 => "PUSH5"@,
        0x65 => "PUSH6"@,
        0x66 => "PUSH7"@,
        0x67 => "PUSH8"@,
        0x68 => "PUSH9"@,
        0x69 => "PUSH10"@,
        0x6a => "PUSH11"@,
        0x6b => "PUSH12"@,
        0x6c => "PUSH13"@,
        0x6d => "PUSH14"@,
        0x6e => "PUSH15"@,
        0x6f => "PUSH16"@,
        0x70 => "PUSH17"@,
        0x71 => "PUSH18"@,
        0x72 => "PUSH19"@,
        0x73 => "PUSH20"@,
        0x74 => "PUSH21"@,
        0x75 => "PUSH22"@,
        0x76 => "PUSH23"@,
        0x77 => "PUSH24"@,
        0x78 => "PUSH25"@,
        0x79 => "PUSH26"@,
        0x7a => "PUSH27"@,
        0x7b => "PUSH28"@,
        0x7c => "PUSH29"@,
        0x7d => "PUSH30"@,
        0x7e => "PUSH31"@,
        0x7f => "PUSH32"@,
        0x80 => "DUP1"@,
        0x81 => "DUP2"@,
        0x82 => "DUP3"@,
        0x83 => "DUP4"@,
        0x84 => "DUP5"@,
        0x85 => "DUP6"@,
        0x86 => "DUP7"@,
        0x87 => "DUP8"@,
        0x88 => "DUP9"@,
        0x89 => "DUP10"@,
        0x8a => "DUP11"@,
        0x8b => "DUP12"@,
        0x8c => "DUP13"@,
        0x8d => "DUP14"@,
        0x8e => "DUP15"@,
        0x8f => "DUP16"@,
        0x90 => "SWAP1"@,
        0x91 => "SWAP2"@,
        0x92 => "SWAP3"@,
        0x93 => "SWAP4"@,
        0x94 => "SWAP5"@,
        0x95 => "SWAP6"@,
        0x96 => "SWAP7"@,
        0x97 => "SWAP8"@,
        0x98 => "SWAP9"@,
        0x99 => "SWAP10"@,
        0x9a => "SWAP11"@,
        0x9b => "SWAP12"@,
        0x9c => "SWAP13"@,
        0x9d => "SWAP14"@,
        0x9e => "SWAP15"@,
        0x9f => "SWAP16"@,
        0xa0 => "LOG0"@,
        0xa1 => "LOG1"@,
        0xa2 => "LOG2"@,
        0xa3 => "LOG3"@,
        0xa4 => "LOG4"@,
        0xf0 => "CREATE"@,
        0xf1 => "CALL"@,
        0xf2 => "CALLCODE"@,
        0xf3 => "RETURN"@,
        0xf4 => "DELEGATECALL"@,
        0xf5 => "CREATE2"@,
        0xfa => "STATICCALL"@,
        0xfd => "REVERT"@,
        0xfe => "INVALID"@,
        0xff => "SELFDESTRUCT"@,
        _ => ""@,
    }
}

/// The mnemonic of a byte, as text that lives for the whole program.
fn mnemonic_str(byte: u8) -> (r: &'static str)
    ensures
        r@ == mnemonic(byte),
{
    match byte {
        0x00 => "STOP",
        0x01 => "ADD",
        0x02 => "MUL",
        0x03 => "SUB",
        0x04 => "DIV",
        0x05 => "SDIV",
        0x06 => "MOD",
        0x07 => "SMOD",
        0x08 => "ADDMOD",
        0x09 => "MULMOD",
        0x0a => "EXP",
        0x0b => "SIGNEXTEND",
        0x10 => "LT",
        0x11 => "GT",
        0x12 => "SLT",
        0x13 => "SGT",
        0x14 => "EQ",
        0x15 => "ISZERO",
        0x16 => "AND",
        0x17 => "OR",
        0x18 => "XOR",
        0x19 => "NOT",
        0x1a => "BYTE",
        0x1b => "SHL",
        0x1c => "SHR",
        0x1d => "SAR",
        0x20 => "KECCAK256",
        0x30 => "ADDRESS",
        0x31 => "BALANCE",
        0x32 => "ORIGIN",
        0x33 => "CALLER",
        0x34 => "CALLVALUE",
        0x35 => "CALLDATALOAD",
        0x36 => "CALLDATASIZE",
        0x37 => "CALLDATACOPY",
        0x38 => "CODESIZE",
        0x39 => "CODECOPY",
        0x3a => "GASPRICE",
        0x3b => "EXTCODESIZE",
        0x3c => "EXTCODECOPY",
        0x3d => "RETURNDATASIZE",
        0x3e => "RETURNDATACOPY",
        0x3f => "EXTCODEHASH",
        0x40 => "BLOCKHASH",
        0x41 => "COINBASE",
        0x42 => "TIMESTAMP",
        0x43 => "NUMBER",
        0x44 => "DIFFICULTY",
        0x45 => "GASLIMIT",
        0x46 => "CHAINID",
        0x47 => "SELFBALANCE",
        0x48 => "BASEFEE",
        0x49 => "BLOBHASH",
        0x4a => "BLOBBASEFEE",
        0x50 => "POP",
        0x51 => "MLOAD",
        0x52 => "MSTORE",
        0x53 => "MSTORE8",
        0x54 => "SLOAD",
        0x55 => "SSTORE",
        0x56 => "JUMP",
        0x57 => "JUMPI",
        0x58 => "PC",
        0x59 => "MSIZE",
        0x5a => "GAS",
        0x5b => "JUMPDEST",
        0x5c => "TLOAD",
        0x5d => "TSTORE",
        0x5e => "MCOPY",
        0x5f => "PUSH0",
        0x60 => "PUSH1",
        0x61 => "PUSH2",
        0x62 => "PUSH3",
        0x63 => "PUSH4",
        0x64 => "PUSH5",
        0x65 => "PUSH6",
        0x66 => "PUSH7",
        0x67 => "PUSH8",
        0x68 => "PUSH9",
        0x69 => "PUSH10",
        0x6a => "PUSH11",
        0x6b => "PUSH12",
        0x6c => "PUSH13",
        0x6d => "PUSH14",
        0x6e => "PUSH15",
        0x6f => "PUSH16",
        0x70 => "PUSH17",
        0x71 => "PUSH18",
        0x72 => "PUSH19",
        0x73 => "PUSH20",
        0x74 => "PUSH21",
        0x75 => "PUSH22",
        0x76 => "PUSH23",
        0x77 => "PUSH24",
        0x78 => "PUSH25",
        0x79 => "PUSH26",
        0x7a => "PUSH27",
        0x7b => "PUSH28",
        0x7c => "PUSH29",
        0x7d => "PUSH30",
        0x7e => "PUSH31",
        0x7f => "PUSH32",
        0x80 => "DUP1",
        0x81 => "DUP2",
        0x82 => "DUP3",
        0x83 => "DUP4",
        0x84 => "DUP5",
        0x85 => "DUP6",
        0x86 => "DUP7",
        0x87 => "DUP8",
        0x88 => "DUP9",
        0x89 => "DUP10",
        0x8a => "DUP11",
        0x8b => "DUP12",
        0x8c => "DUP13",
        0x8d => "DUP14",
        0x8e => "DUP15",
        0x8f => "DUP16",
        0x90 => "SWAP1",
        0x91 => "SWAP2",
        0x92 => "SWAP3",
        0x93 => "SWAP4",
        0x94 => "SWAP5",
        0x95 => "SWAP6",
        0x96 => "SWAP7",
        0x97 => "SWAP8",
        0x98 => "SWAP9",
        0x99 => "SWAP10",
        0x9a => "SWAP11",
        0x9b => "SWAP12",
        0x9c => "SWAP13",
        0x9d => "SWAP14",
        0x9e => "SWAP15",
        0x9f => "SWAP16",
        0xa0 => "LOG0",
        0xa1 => "LOG1",
        0xa2 => "LOG2",
        0xa3 => "LOG3",
        0xa4 => "LOG4",
        0xf0 => "CREATE",
        0xf1 => "CALL",
        0xf2 => "CALLCODE",
        0xf3 => "RETURN",
        0xf4 => "DELEGATECALL",
        0xf5 => "CREATE2",
        0xfa => "STATICCALL",
        0xfd => "REVERT",
        0xfe => "INVALID",
        0xff => "SELFDESTRUCT",
        _ => "",
    }
}

/// Inverse of `name_code` on the mnemonics and on the two aliases of 0x44.
spec fn byte_of_code(n: int) -> Option<u8> {
    if n == 1267650600228229401496872282707 {
        Some(0x00)
    } else if n == 950737950171172051122528526913 {
        Some(0x01)
    } else if n == 950737950171172051122528660173 {
        Some(0x02)
    } else if n == 950737950171172051122528496339 {
        Some(0x03)
    } else if n == 950737950171172051122528822468 {
        Some(0x04)
    } else if n == 1267650600228229401496884765267 {
        Some(0x05)
    } else if n == 950737950171172051122528528333 {
        Some(0x06)
    } else if n == 1267650600228229401496847115987 {
        Some(0x07)
    } else if n == 1901475900342344104602886021697 {
        Some(0x08)
    } else if n == 1901475900342344104602886154957 {
        Some(0x09)
    } else if n == 950737950171172051122528726085 {
        Some(0x0a)
    } else if n == 3169126501203422510607877924051 {
        Some(0x0b)
    } else if n == 633825300114114700748351613516 {
        Some(0x10)
    } else if n == 633825300114114700748351613511 {
        Some(0x11)
    } else if n == 950737950171172051122528790099 {
        Some(0x12)
    } else if n == 950737950171172051122528789459 {
        Some(0x13)
    } else if n == 633825300114114700748351613125 {
        Some(0x14)
    } else if n == 1901475900342344104981632035273 {
        Some(0x15)
    } else if n == 950737950171172051122528528193 {
        Some(0x16)
    } else if n == 633825300114114700748351613263 {
        Some(0x17)
    } else if n == 950737950171172051122528757720 {
        Some(0x18)
    } else if n == 950737950171172051122528790478 {
        Some(0x19)
    } else if n == 1267650600228229401496849296578 {
        Some(0x1a)
    } else if n == 950737950171172051122528658515 {
        Some(0x1b)
    } else if n == 950737950171172051122528756819 {
        Some(0x1c)
    } else if n == 950737950171172051122528755923 {
        Some(0x1d)
    } else if n == 2852213850517437322290057503435 {
        Some(0x20)
    } else if n == 2218388550399401820527644451393 {
        Some(0x30)
    } else if n == 2218388550399401758407617880258 {
        Some(0x31)
    } else if n == 1901475900342344104944860293455 {
        Some(0x32)
    } else if n == 1901475900342344105081236037827 {
        Some(0x33)
    } else if n == 2852213850518536314610403975363 {
        Some(0x34)
    } else if n == 3802962154026770006962915713219 {
        Some(0x35)
    } else if n == 3802962334602452147663981977795 {
        Some(0x36)
    } else if n == 3802965345165272287779327516867 {
        Some(0x37)
    } else if n == 2535301200456498044895065352131 {
        Some(0x38)
    } else if n == 2535301200456509260115532130243 {
        Some(0x39)
    } else if n == 2535301200456497943739750473927 {
        Some(0x3a)
    } else if n == 3486039232923863401968166054981 {
        Some(0x3b)
    } else if n == 3486039256443885434312817192005 {
        Some(0x3c)
    } else if n == 4609364809443247866033607090898 {
        Some(0x3d)
    } else if n == 4658689870688423515854919246546 {
        Some(0x3e)
    } else if n == 3486039236400492006660625476677 {
        Some(0x3f)
    } else if n == 2852213850518751313351645849154 {
        Some(0x40)
    } else if n == 2535301200456498013829317420995 {
        Some(0x41)
    } else if n == 2852213850519324396818697250004 {
        Some(0x42)
    } else if n == 1901475900342344105081215085262 {
        Some(0x43)
    } else if n == 3169126501397549613273278686404 {
        Some(0x44)
    } else if n == 2535301200456506414512345505991 {
        Some(0x45)
    } else if n == 2218388550399401754215746397251 {
        Some(0x46)
    } else if n == 3486039232712076030671297127123 {
        Some(0x47)
    } else if n == 2218388550399401758474198376642 {
        Some(0x48)
    } else if n == 2535301200456499702680763229762 {
        Some(0x49)
    } else if n == 3486039232729948596578834179650 {
        Some(0x4a)
    } else if n == 950737950171172051122528724944 {
        Some(0x50)
    } else if n == 1584563250285286751889270236749 {
        Some(0x51)
    } else if n == 1901475900342344104638055524813 {
        Some(0x52)
    } else if n == 2218388550399401701302835947981 {
        Some(0x53)
    } else if n == 1584563250285286751889270236755 {
        Some(0x54)
    } else if n == 1901475900342344104638055524819 {
        Some(0x55)
    } else if n == 1267650600228229401496872250058 {
        Some(0x56)
    } else if n == 1584563250285286751890643839690 {
        Some(0x57)
    } else if n == 633825300114114700748351611344 {
        Some(0x58)
    } else if n == 1584563250285286751889591003597 {
        Some(0x59)
    } else if n == 950737950171172051122528772295 {
        Some(0x5a)
    } else if n == 2535301200456506458216598825674 {
        Some(0x5b)
    } else if n == 1584563250285286751889270236756 {
        Some(0x5c)
    } else if n == 1901475900342344104638055524820 {
        Some(0x5d)
    } else if n == 1584563250285286751894938837453 {
        Some(0x5e)
    } else if n == 1584563250285286751883916274384 {
        Some(0x5f)
    } else if n == 1584563250285286751884184709840 {
        Some(0x60)
    } else if n == 1584563250285286751884453145296 {
        Some(0x61)
    } else if n == 1584563250285286751884721580752 {
        Some(0x62)
    } else if n == 1584563250285286751884990016208 {
        Some(0x63)
    } else if n == 1584563250285286751885258451664 {
        Some(0x64)
    } else if n == 1584563250285286751885526887120 {
        Some(0x65)
    } else if n == 1584563250285286751885795322576 {
        Some(0x66)
    } else if n == 1584563250285286751886063758032 {
        Some(0x67)
    } else if n == 1584563250285286751886332193488 {
        Some(0x68)
    } else if n == 1901475900342344103907627952848 {
        Some(0x69)
    } else if n == 1901475900342344103941987691216 {
        Some(0x6a)
    } else if n == 1901475900342344103976347429584 {
        Some(0x6b)
    } else if n == 1901475900342344104010707167952 {
        Some(0x6c)
    } else if n == 1901475900342344104045066906320 {
        Some(0x6d)
    } else if n == 1901475900342344104079426644688 {
        Some(0x6e)
    } else if n == 1901475900342344104113786383056 {
        Some(0x6f)
    } else if n == 1901475900342344104148146121424 {
        Some(0x70)
    } else if n == 1901475900342344104182505859792 {
        Some(0x71)
    } else if n == 1901475900342344104216865598160 {
        Some(0x72)
    } else if n == 1901475900342344103907896388304 {
        Some(0x73)
    } else if n == 1901475900342344103942256126672 {
        Some(0x74)
    } else if n == 1901475900342344103976615865040 {
        Some(0x75)
    } else if n == 1901475900342344104010975603408 {
        Some(0x76)
    } else if n == 1901475900342344104045335341776 {
        Some(0x77)
    } else if n == 1901475900342344104079695080144 {
        Some(0x78)
    } else if n == 1901475900342344104114054818512 {
        Some(0x79)
    } else if n == 1901475900342344104148414556880 {
        Some(0x7a)
    } else if n == 1901475900342344104182774295248 {
        Some(0x7b)
    } else if n == 1901475900342344104217134033616 {
        Some(0x7c)
    } else if n == 1901475900342344103908164823760 {
        Some(0x7d)
    } else if n == 1901475900342344103942524562128 {
        Some(0x7e)
    } else if n == 1901475900342344103976884300496 {
        Some(0x7f)
    } else if n == 1267650600228229401496807287492 {
        Some(0x80)
    } else if n == 1267650600228229401496809384644 {
        Some(0x81)
    } else if n == 1267650600228229401496811481796 {
        Some(0x82)
    } else if n == 1267650600228229401496813578948 {
        Some(0x83)
    } else if n == 1267650600228229401496815676100 {
        Some(0x84)
    } else if n == 1267650600228229401496817773252 {
        Some(0x85)
    } else if n == 1267650600228229401496819870404 {
        Some(0x86)
    } else if n == 1267650600228229401496821967556 {
        Some(0x87)
    } else if n == 1267650600228229401496824064708 {
        Some(0x88)
    } else if n == 1584563250285286751883867990724 {
        Some(0x89)
    } else if n == 1584563250285286751884136426180 {
        Some(0x8a)
    } else if n == 1584563250285286751884404861636 {
        Some(0x8b)
    } else if n == 1584563250285286751884673297092 {
        Some(0x8c)
    } else if n == 1584563250285286751884941732548 {
        Some(0x8d)
    } else if n == 1584563250285286751885210168004 {
        Some(0x8e)
    } else if n == 1584563250285286751885478603460 {
        Some(0x8f)
    } else if n == 1584563250285286751884201192403 {
        Some(0x90)
    } else if n == 1584563250285286751884469627859 {
        Some(0x91)
    } else if n == 1584563250285286751884738063315 {
        Some(0x92)
    } else if n == 1584563250285286751885006498771 {
        Some(0x93)
    } else if n == 1584563250285286751885274934227 {
        Some(0x94)
    } else if n == 1584563250285286751885543369683 {
        Some(0x95)
    } else if n == 1584563250285286751885811805139 {
        Some(0x96)
    } else if n == 1584563250285286751886080240595 {
        Some(0x97)
    } else if n == 1584563250285286751886348676051 {
        Some(0x98)
    } else if n == 1901475900342344103907644435411 {
        Some(0x99)
    } else if n == 1901475900342344103942004173779 {
        Some(0x9a)
    } else if n == 1901475900342344103976363912147 {
        Some(0x9b)
    } else if n == 1901475900342344104010723650515 {
        Some(0x9c)
    } else if n == 1901475900342344104045083388883 {
        Some(0x9d)
    } else if n == 1901475900342344104079443127251 {
        Some(0x9e)
    } else if n == 1901475900342344104113802865619 {
        Some(0x9f)
    } else if n == 1267650600228229401496805042124 {
        Some(0xa0)
    } else if n == 1267650600228229401496807139276 {
        Some(0xa1)
    } else if n == 1267650600228229401496809236428 {
        Some(0xa2)
    } else if n == 1267650600228229401496811333580 {
        Some(0xa3)
    } else if n == 1267650600228229401496813430732 {
        Some(0xa4)
    } else if n == 1901475900342344104638562789699 {
        Some(0xf0)
    } else if n == 1267650600228229401496863842499 {
        Some(0xf1)
    } else if n == 2535301200456497948339920380099 {
        Some(0xf2)
    } else if n == 1901475900342344104947305751250 {
        Some(0xf3)
    } else if n == 3802963375809323974421910856388 {
        Some(0xf4)
    } else if n == 2218388550399401674915064146243 {
        Some(0xf5)
    } else if n == 3169126501277063044427567622739 {
        Some(0xfa)
    } else if n == 1901475900342344105153430659794 {
        Some(0xfd)
    } else if n == 2218388550399401754215193093961 {
        Some(0xfe)
    } else if n == 3802964574295375747229938819795 {
        Some(0xff)
    } else if n == 1901475900342344104912104956114 {
        Some(0x44)
    } else if n == 3169126501303942264165787330896 {
        Some(0x44)
    } else {
        None
    }
}

proof fn lemma_code_of_mnemonic(b: u8)
    requires
        is_defined(b),
    ensures
        byte_of_code(name_code(mnemonic(b))) == Some(b),
        mnemonic(b).len() > 0,
{
    match b {
        0x00 => reveal_strlit("STOP"),
        0x01 => reveal_strlit("ADD"),
        0x02 => reveal_strlit("MUL"),
        0x03 => reveal_strlit("SUB"),
        0x04 => reveal_strlit("DIV"),
        0x05 => reveal_strlit("SDIV"),
        0x06 => reveal_strlit("MOD"),
        0x07 => reveal_strlit("SMOD"),
        0x08 => reveal_strlit("ADDMOD"),
        0x09 => reveal_strlit("MULMOD"),
        0x0a => reveal_strlit("EXP"),
        0x0b => reveal_strlit("SIGNEXTEND"),
        0x10 => reveal_strlit("LT"),
        0x11 => reveal_strlit("GT"),
        0x12 => reveal_strlit("SLT"),
        0x13 => reveal_strlit("SGT"),
        0x14 => reveal_strlit("EQ"),
        0x15 => reveal_strlit("ISZERO"),
        0x16 => reveal_strlit("AND"),
        0x17 => reveal_strlit("OR"),
        0x18 => reveal_strlit("XOR"),
        0x19 => reveal_strlit("NOT"),
        0x1a => reveal_strlit("BYTE"),
        0x1b => reveal_strlit("SHL"),
        0x1c => reveal_strlit("SHR"),
        0x1d => reveal_strlit("SAR"),
        0x20 => reveal_strlit("KECCAK256"),
        0x30 => reveal_strlit("ADDRESS"),
        0x31 => reveal_strlit("BALANCE"),
        0x32 => reveal_strlit("ORIGIN"),
        0x33 => reveal_strlit("CALLER"),
        0x34 => reveal_strlit("CALLVALUE"),
        0x35 => reveal_strlit("CALLDATALOAD"),
        0x36 => reveal_strlit("CALLDATASIZE"),
        0x37 => reveal_strlit("CALLDATACOPY"),
        0x38 => reveal_strlit("CODESIZE"),
        0x39 => reveal_strlit("CODECOPY"),
        0x3a => reveal_strlit("GASPRICE"),
        0x3b => reveal_strlit("EXTCODESIZE"),
        0x3c => reveal_strlit("EXTCODECOPY"),
        0x3d => reveal_strlit("RETURNDATASIZE"),
        0x3e => reveal_strlit("RETURNDATACOPY"),
        0x3f => reveal_strlit("EXTCODEHASH"),
        0x40 => reveal_strlit("BLOCKHASH"),
        0x41 => reveal_strlit("COINBASE"),
        0x42 => reveal_strlit("TIMESTAMP"),
        0x43 => reveal_strlit("NUMBER"),
        0x44 => reveal_strlit("DIFFICULTY"),
        0x45 => reveal_strlit("GASLIMIT"),
        0x46 => reveal_strlit("CHAINID"),
        0x47 => reveal_strlit("SELFBALANCE"),
        0x48 => reveal_strlit("BASEFEE"),
        0x49 => reveal_strlit("BLOBHASH"),
        0x4a => reveal_strlit("BLOBBASEFEE"),
        0x50 => reveal_strlit("POP"),
        0x51 => reveal_strlit("MLOAD"),
        0x52 => reveal_strlit("MSTORE"),
        0x53 => reveal_strlit("MSTORE8"),
        0x54 => reveal_strlit("SLOAD"),
        0x55 => reveal_strlit("SSTORE"),
        0x56 => reveal_strlit("JUMP"),
        0x57 => reveal_strlit("JUMPI"),
        0x58 => reveal_strlit("PC"),
        0x59 => reveal_strlit("MSIZE"),
        0x5a => reveal_strlit("GAS"),
        0x5b => reveal_strlit("JUMPDEST"),
        0x5c => reveal_strlit("TLOAD"),
        0x5d => reveal_strlit("TSTORE"),
        0x5e => reveal_strlit("MCOPY"),
        0x5f => reveal_strlit("PUSH0"),
        0x60 => reveal_strlit("PUSH1"),
        0x61 => reveal_strlit("PUSH2"),
        0x62 => reveal_strlit("PUSH3"),
        0x63 => reveal_strlit("PUSH4"),
        0x64 => reveal_strlit("PUSH5"),
        0x65 => reveal_strlit("PUSH6"),
        0x66 => reveal_strlit("PUSH7"),
        0x67 => reveal_strlit("PUSH8"),
        0x68 => reveal_strlit("PUSH9"),
        0x69 => reveal_strlit("PUSH10"),
        0x6a => reveal_strlit("PUSH11"),
        0x6b => reveal_strlit("PUSH12"),
        0x6c => reveal_strlit("PUSH13"),
        0x6d => reveal_strlit("PUSH14"),
        0x6e => reveal_strlit("PUSH15"),
        0x6f => reveal_strlit("PUSH16"),
        0x70 => reveal_strlit("PUSH17"),
        0x71 => reveal_strlit("PUSH18"),
        0x72 => reveal_strlit("PUSH19"),
        0x73 => reveal_strlit("PUSH20"),
        0x74 => reveal_strlit("PUSH21"),
        0x75 => reveal_strlit("PUSH22"),
        0x76 => reveal_strlit("PUSH23"),
        0x77 => reveal_strlit("PUSH24"),
        0x78 => reveal_strlit("PUSH25"),
        0x79 => reveal_strlit("PUSH26"),
        0x7a => reveal_strlit("PUSH27"),
        0x7b => reveal_strlit("PUSH28"),
        0x7c => reveal_strlit("PUSH29"),
        0x7d => reveal_strlit("PUSH30"),
        0x7e => reveal_strlit("PUSH31"),
        0x7f => reveal_strlit("PUSH32"),
        0x80 => reveal_strlit("DUP1"),
        0x81 => reveal_strlit("DUP2"),
        0x82 => reveal_strlit("DUP3"),
        0x83 => reveal_strlit("DUP4"),
        0x84 => reveal_strlit("DUP5"),
        0x85 => reveal_strlit("DUP6"),
        0x86 => reveal_strlit("DUP7"),
        0x87 => reveal_strlit("DUP8"),
        0x88 => reveal_strlit("DUP9"),
        0x89 => reveal_strlit("DUP10"),
        0x8a => reveal_strlit("DUP11"),
        0x8b => reveal_strlit("DUP12"),
        0x8c => reveal_strlit("DUP13"),
        0x8d => reveal_strlit("DUP14"),
        0x8e => reveal_strlit("DUP15"),
        0x8f => reveal_strlit("DUP16"),
        0x90 => reveal_strlit("SWAP1"),
        0x91 => reveal_strlit("SWAP2"),
        0x92 => reveal_strlit("SWAP3"),
        0x93 => reveal_strlit("SWAP4"),
        0x94 => reveal_strlit("SWAP5"),
        0x95 => reveal_strlit("SWAP6"),
        0x96 => reveal_strlit("SWAP7"),
        0x97 => reveal_strlit("SWAP8"),
        0x98 => reveal_strlit("SWAP9"),
        0x99 => reveal_strlit("SWAP10"),
        0x9a => reveal_strlit("SWAP11"),
        0x9b => reveal_strlit("SWAP12"),
        0x9c => reveal_strlit("SWAP13"),
        0x9d => reveal_strlit("SWAP14"),
        0x9e => reveal_strlit("SWAP15"),
        0x9f => reveal_strlit("SWAP16"),
        0xa0 => reveal_strlit("LOG0"),
        0xa1 => reveal_strlit("LOG1"),
        0xa2 => reveal_strlit("LOG2"),
        0xa3 => reveal_strlit("LOG3"),
        0xa4 => reveal_strlit("LOG4"),
        0xf0 => reveal_strlit("CREATE"),
        0xf1 => reveal_strlit("CALL"),
        0xf2 => reveal_strlit("CALLCODE"),
        0xf3 => reveal_strlit("RETURN"),
        0xf4 => reveal_strlit("DELEGATECALL"),
        0xf5 => reveal_strlit("CREATE2"),
        0xfa => reveal_strlit("STATICCALL"),
        0xfd => reveal_strlit("REVERT"),
        0xfe => reveal_strlit("INVALID"),
        0xff => reveal_strlit("SELFDESTRUCT"),
        _ => {},
    }
}

proof fn lemma_code_of_alias()
    ensures
        byte_of_code(name_code("RANDOM"@)) == Some(DIFFICULTY),
        byte_of_code(name_code("PREVRANDAO"@)) == Some(DIFFICULTY),
{
    reveal_strlit("RANDOM");
    reveal_strlit("PREVRANDAO");
}

/// No text names two different opcodes.
pub proof fn lemma_names_unique(s: Seq<char>, a: u8, b: u8)
    requires
        names_byte(s, a),
        names_byte(s, b),
    ensures
        a == b,
{
    lemma_code_of_alias();
    if is_defined(a) && s == mnemonic(a) {
        lemma_code_of_mnemonic(a);
    }
    if is_defined(b) && s == mnemonic(b) {
        lemma_code_of_mnemonic(b);
    }
}

/// Every defined byte has a non-empty mnemonic, that mnemonic names the byte, and it names no
/// other byte: encoding the display of a decoded opcode gives the same opcode back.
pub proof fn lemma_display_round_trip(b: u8)
    requires
        is_defined(b),
    ensures
        mnemonic(b).len() > 0,
        names_byte(mnemonic(b), b),
        forall|c: u8| names_byte(mnemonic(b), c) ==> c == b,
{
    lemma_code_of_mnemonic(b);
    assert forall|c: u8| names_byte(mnemonic(b), c) implies c == b by {
        lemma_names_unique(mnemonic(b), b, c);
    }
}

/// Every name that encodes to a byte displays back as a name of that same byte.
pub proof fn lemma_name_round_trip(s: Seq<char>, b: u8)
    requires
        names_byte(s, b),
    ensures
        is_defined(b),
        names_byte(mnemonic(b), b),
{
}


/// One instruction of the machine: a byte that the opcode table defines.
pub struct Opcode {
    byte: u8,
}

/// A byte that is not a defined instruction.
#[derive(Debug, PartialEq, Eq)]
pub struct InvalidOpcode {
    pub byte: u8,
}

/// A text that is not the name of any instruction.
#[derive(Debug, PartialEq, Eq)]
pub struct InvalidOpcodeName {
    pub name: String,
}

impl View for Opcode {
    type V = u8;

    closed spec fn view(&self) -> u8 {
        self.byte
    }
}

/// Whether the byte is a defined instruction.
fn byte_is_defined(b: u8) -> (r: bool)
    ensures
        r == is_defined(b),
{
    !((0x0c <= b && b <= 0x0f) || (0x1e <= b && b <= 0x1f) || (0x21 <= b && b <= 0x2f) || (0x4b
        <= b && b <= 0x4f) || (0xa5 <= b && b <= 0xef) || (0xf6 <= b && b <= 0xf9) || (0xfb <= b
        && b <= 0xfc))
}

/// Whether two texts hold the same characters.
fn same_text(a: &str, b: &str) -> (r: bool)
    ensures
        r == (a@ == b@),
{
    let n = a.unicode_len();
    if n != b.unicode_len() {
        return false;
    }
    let mut i: usize = 0;
    while i < n
        invariant
            n == a@.len(),
            n == b@.len(),
            i <= n,
            forall|j: int| 0 <= j < i ==> a@[j] == b@[j],
        decreases n - i,
    {
        if a.get_char(i) != b.get_char(i) {
            return false;
        }
        i = i + 1;
    }
    assert(a@ =~= b@);
    true
}

impl Opcode {
    #[verifier::type_invariant]
    spec fn inv(self) -> bool {
        is_defined(self.byte)
    }

    /// The opcode of a byte; fails exactly on the undefined bytes.
    pub fn decode(byte: u8) -> (r: Result<Opcode, InvalidOpcode>)
        ensures
            r is Ok <==> is_defined(byte),
            r matches Ok(op) ==> op@ == byte,
            r matches Err(e) ==> e.byte == byte,
    {
        if byte_is_defined(byte) {
            Ok(Opcode { byte })
        } else {
            Err(InvalidOpcode { byte })
        }
    }

    /// The opcode that a mnemonic names, matched case-sensitively; RANDOM and PREVRANDAO are
    /// accepted as names of DIFFICULTY.
    pub fn encode(name: &str) -> (r: Result<Opcode, InvalidOpcodeName>)
        ensures
            r is Ok <==> exists|b: u8| names_byte(name@, b),
            r matches Ok(op) ==> names_byte(name@, op@),
            r matches Err(e) ==> e.name@ == name@,
    {
        let mut b: u16 = 0;
        while b < 256
            invariant
                b <= 256,
                forall|c: u8| c < b ==> !(is_defined(c) && name@ == mnemonic(c)),
            decreases 256 - b,
        {
            let byte = b as u8;
            if byte_is_defined(byte) && same_text(name, mnemonic_str(byte)) {
                assert(names_byte(name@, byte));
                return Ok(Opcode { byte });
            }
            b = b + 1;
        }
        if same_text(name, "RANDOM") || same_text(name, "PREVRANDAO") {
            assert(names_byte(name@, DIFFICULTY));
            return Ok(Opcode { byte: DIFFICULTY });
        }
        Err(InvalidOpcodeName { name: String::from_str(name) })
    }

    /// The canonical mnemonic of the opcode.
    pub fn to_string(&self) -> (r: String)
        ensures
            r@ == mnemonic(self@),
            r@.len() > 0,
    {
        proof {
            use_type_invariant(self);
            lemma_display_round_trip(self.byte);
        }
        String::from_str(mnemonic_str(self.byte))
    }

    /// The byte of the opcode, which is always a defined one.
    pub fn byte(&self) -> (r: u8)
        ensures
            r == self@,
            is_defined(r),
    {
        proof {
            use_type_invariant(self);
        }
        self.byte
    }

    /// Whether the opcode is one of PUSH0..=PUSH32.
    pub fn is_push(&self) -> (r: bool)
        ensures
            r == is_push_byte(self@),
    {
        self.byte >= PUSH0 && self.byte <= PUSH32
    }

    /// How many immediate bytes follow the opcode in code: `byte - PUSH1 + 1` for a push that
    /// carries data, none for PUSH0 and every other opcode.
    pub fn push_width(&self) -> (r: usize)
        ensures
            r == push_width_of(self@),
            r <= 32,
    {
        if self.byte >= PUSH1 && self.byte <= PUSH32 {
            (self.byte - PUSH1 + 1) as usize
        } else {
            0
        }
    }
}

} // verus!
