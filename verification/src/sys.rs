//! The host's property library: the kinds of node that a property tree is
//! made of, and the symbols by which the library exports its functions.

use vstd::prelude::*;
use vstd::string::*;

verus! {

/// The kind of a node, by which the host reads and writes its value.
#[derive(Debug, Copy, Clone, PartialEq, Eq, Hash, Structural)]
pub enum NodeType {
    NodeNode,
    NodeS8,
    NodeU8,
    NodeS16,
    NodeU16,
    NodeS32,
    NodeU32,
    NodeS64,
    NodeU64,
    NodeBin,
    NodeStr,
    NodeIp4,
    NodeTime,
    NodeFloat,
    NodeDouble,
    Node2s8,
    Node2u8,
    Node2s16,
    Node2u16,
    Node2s32,
    Node2u32,
    Node2s64,
    Node2u64,
    Node2f,
    Node2d,
    Node3s8,
    Node3u8,
    Node3s16,
    Node3u16,
    Node3s32,
    Node3u32,
    Node3s64,
    Node3u64,
    Node3f,
    Node3d,
    Node4s8,
    Node4u8,
    Node4s16,
    Node4u16,
    Node4s32,
    Node4u32,
    Node4s64,
    Node4u64,
    Node4f,
    Node4d,
    NodeAttr,
    NodeAttrAndNode,
    NodeVs8,
    NodeVu8,
    NodeVs16,
    NodeVu16,
    NodeBool,
    Node2b,
    Node3b,
    Node4b,
    NodeVb,
}

impl NodeType {
    /// The number that the host knows the kind by.
    pub open spec fn spec_code(self) -> u32 {
        match self {
            NodeType::NodeNode => 1,
            NodeType::NodeS8 => 2,
            NodeType::NodeU8 => 3,
            NodeType::NodeS16 => 4,
            NodeType::NodeU16 => 5,
            NodeType::NodeS32 => 6,
            NodeType::NodeU32 => 7,
            NodeType::NodeS64 => 8,
            NodeType::NodeU64 => 9,
            NodeType::NodeBin => 10,
            NodeType::NodeStr => 11,
            NodeType::NodeIp4 => 12,
            NodeType::NodeTime => 13,
            NodeType::NodeFloat => 14,
            NodeType::NodeDouble => 15,
            NodeType::Node2s8 => 16,
            NodeType::Node2u8 => 17,
            NodeType::Node2s16 => 18,
            NodeType::Node2u16 => 19,
            NodeType::Node2s32 => 20,
            NodeType::Node2u32 => 21,
            NodeType::Node2s64 => 22,
            NodeType::Node2u64 => 23,
            NodeType::Node2f => 24,
            NodeType::Node2d => 25,
            NodeType::Node3s8 => 26,
            NodeType::Node3u8 => 27,
            NodeType::Node3s16 => 28,
            NodeType::Node3u16 => 29,
            NodeType::Node3s32 => 30,
            NodeType::Node3u32 => 31,
            NodeType::Node3s64 => 32,
            NodeType::Node3u64 => 33,
            NodeType::Node3f => 34,
            NodeType::Node3d => 35,
            NodeType::Node4s8 => 36,
            NodeType::Node4u8 => 37,
            NodeType::Node4s16 => 38,
            NodeType::Node4u16 => 39,
            NodeType::Node4s32 => 40,
            NodeType::Node4u32 => 41,
            NodeType::Node4s64 => 42,
            NodeType::Node4u64 => 43,
            NodeType::Node4f => 44,
            NodeType::Node4d => 45,
            NodeType::NodeAttr => 46,
            NodeType::NodeAttrAndNode => 47,
            NodeType::NodeVs8 => 48,
            NodeType::NodeVu8 => 49,
            NodeType::NodeVs16 => 50,
            NodeType::NodeVu16 => 51,
            NodeType::NodeBool => 52,
            NodeType::Node2b => 53,
            NodeType::Node3b => 54,
            NodeType::Node4b => 55,
            NodeType::NodeVb => 56,
        }
    }

    /// The kind that the host knows by a number, if it knows one by it.
    pub open spec fn spec_from_code(code: u32) -> Option<NodeType> {
        if exists|kind: NodeType| kind.spec_code() == code {
            Some(choose|kind: NodeType| kind.spec_code() == code)
        } else {
            None
        }
    }

    /// The number that the host knows the kind by.
    pub fn code(self) -> (code: u32)
        ensures
            code == self.spec_code(),
            1 <= code <= 56,
    {
        match self {
            NodeType::NodeNode => 1,
            NodeType::NodeS8 => 2,
            NodeType::NodeU8 => 3,
            NodeType::NodeS16 => 4,
            NodeType::NodeU16 => 5,
            NodeType::NodeS32 => 6,
            NodeType::NodeU32 => 7,
            NodeType::NodeS64 => 8,
            NodeType::NodeU64 => 9,
            NodeType::NodeBin => 10,
            NodeType::NodeStr => 11,
            NodeType::NodeIp4 => 12,
            NodeType::NodeTime => 13,
            NodeType::NodeFloat => 14,
            NodeType::NodeDouble => 15,
            NodeType::Node2s8 => 16,
            NodeType::Node2u8 => 17,
            NodeType::Node2s16 => 18,
            NodeType::Node2u16 => 19,
            NodeType::Node2s32 => 20,
            NodeType::Node2u32 => 21,
            NodeType::Node2s64 => 22,
            NodeType::Node2u64 => 23,
            NodeType::Node2f => 24,
            NodeType::Node2d => 25,
            NodeType::Node3s8 => 26,
            NodeType::Node3u8 => 27,
            NodeType::Node3s16 => 28,
            NodeType::Node3u16 => 29,
            NodeType::Node3s32 => 30,
            NodeType::Node3u32 => 31,
            NodeType::Node3s64 => 32,
            NodeType::Node3u64 => 33,
            NodeType::Node3f => 34,
            NodeType::Node3d => 35,
            NodeType::Node4s8 => 36,
            NodeType::Node4u8 => 37,
            NodeType::Node4s16 => 38,
            NodeType::Node4u16 => 39,
            NodeType::Node4s32 => 40,
            NodeType::Node4u32 => 41,
            NodeType::Node4s64 => 42,
            NodeType::Node4u64 => 43,
            NodeType::Node4f => 44,
            NodeType::Node4d => 45,
            NodeType::NodeAttr => 46,
            NodeType::NodeAttrAndNode => 47,
            NodeType::NodeVs8 => 48,
            NodeType::NodeVu8 => 49,
            NodeType::NodeVs16 => 50,
            NodeType::NodeVu16 => 51,
            NodeType::NodeBool => 52,
            NodeType::Node2b => 53,
            NodeType::Node3b => 54,
            NodeType::Node4b => 55,
            NodeType::NodeVb => 56,
        }
    }

    /// The kind that the host knows by `code`.
    pub fn from_code(code: u32) -> (kind: Option<NodeType>)
        ensures
            kind == NodeType::spec_from_code(code),
            kind matches Some(found) ==> found.spec_code() == code,
            kind is None <==> code < 1 || code > 56,
    {
        let kind: Option<NodeType> = match code {
            1 => Some(NodeType::NodeNode),
            2 => Some(NodeType::NodeS8),
            3 => Some(NodeType::NodeU8),
            4 => Some(NodeType::NodeS16),
            5 => Some(NodeType::NodeU16),
            6 => Some(NodeType::NodeS32),
            7 => Some(NodeType::NodeU32),
            8 => Some(NodeType::NodeS64),
            9 => Some(NodeType::NodeU64),
            10 => Some(NodeType::NodeBin),
            11 => Some(NodeType::NodeStr),
            12 => Some(NodeType::NodeIp4),
            13 => Some(NodeType::NodeTime),
            14 => Some(NodeType::NodeFloat),
            15 => Some(NodeType::NodeDouble),
            16 => Some(NodeType::Node2s8),
            17 => Some(NodeType::Node2u8),
            18 => Some(NodeType::Node2s16),
            19 => Some(NodeType::Node2u16),
            20 => Some(NodeType::Node2s32),
            21 => Some(NodeType::Node2u32),
            22 => Some(NodeType::Node2s64),
            23 => Some(NodeType::Node2u64),
            24 => Some(NodeType::Node2f),
            25 => Some(NodeType::Node2d),
            26 => Some(NodeType::Node3s8),
            27 => Some(NodeType::Node3u8),
            28 => Some(NodeType::Node3s16),
            29 => Some(NodeType::Node3u16),
            30 => Some(NodeType::Node3s32),
            31 => Some(NodeType::Node3u32),
            32 => Some(NodeType::Node3s64),
            33 => Some(NodeType::Node3u64),
            34 => Some(NodeType::Node3f),
            35 => Some(NodeType::Node3d),
            36 => Some(NodeType::Node4s8),
            37 => Some(NodeType::Node4u8),
            38 => Some(NodeType::Node4s16),
            39 => Some(NodeType::Node4u16),
            40 => Some(NodeType::Node4s32),
            41 => Some(NodeType::Node4u32),
            42 => Some(NodeType::Node4s64),
            43 => Some(NodeType::Node4u64),
            44 => Some(NodeType::Node4f),
            45 => Some(NodeType::Node4d),
            46 => Some(NodeType::NodeAttr),
            47 => Some(NodeType::NodeAttrAndNode),
            48 => Some(NodeType::NodeVs8),
            49 => Some(NodeType::NodeVu8),
            50 => Some(NodeType::NodeVs16),
            51 => Some(NodeType::NodeVu16),
            52 => Some(NodeType::NodeBool),
            53 => Some(NodeType::Node2b),
            54 => Some(NodeType::Node3b),
            55 => Some(NodeType::Node4b),
            56 => Some(NodeType::NodeVb),
            _ => None,
        };
        proof {
            match kind {
                Some(found) => {
                    assert(found.spec_code() == code);
                    lemma_codes_are_distinct(found, choose|other: NodeType| other.spec_code() == code);
                },
                None => {
                    assert forall|other: NodeType| other.spec_code() != code by {
                        lemma_codes_are_in_range(other);
                    }
                },
            }
        }
        kind
    }
}

/// Every kind has a number from 1 to 56.
pub proof fn lemma_codes_are_in_range(kind: NodeType)
    ensures
        1 <= kind.spec_code() <= 56,
{
}

/// No two kinds share a number.
pub proof fn lemma_codes_are_distinct(first: NodeType, second: NodeType)
    requires
        first.spec_code() == second.spec_code(),
    ensures
        first == second,
{
}

/// A kind is found again by its number.
pub proof fn law_code_round_trip(kind: NodeType)
    ensures
        NodeType::spec_from_code(kind.spec_code()) == Some(kind),
{
    lemma_codes_are_distinct(kind, choose|other: NodeType| other.spec_code() == kind.spec_code());
}

/// The architectures of the host. Each has its own library, in which the
/// same functions go by other symbols.
#[derive(Debug, Copy, Clone, PartialEq, Eq, Hash, Structural)]
pub enum Architecture {
    /// The 32-bit host.
    X86,
    /// The 64-bit host.
    X86_64,
}

/// The functions of the host's property library that the hook uses.
#[derive(Debug, Copy, Clone, PartialEq, Eq, Hash, Structural)]
pub enum HostFunction {
    /// Destroys a property. This is the entry point that the hook is put on.
    PropertyDestroy,
    /// Sets some flags of a property and clears others.
    PropertySetFlag,
    /// Clears the error of a property.
    PropertyClearError,
    /// Tells how many bytes a property takes when written out.
    PropertyQuerySize,
    /// Looks for a node by its path.
    PropertySearch,
    /// Reads the name of a node.
    PropertyNodeName,
    /// Reads the value of a node.
    PropertyNodeRead,
    /// Reads the value of a node found by its path.
    PropertyNodeRefer,
    /// Writes a property out into memory.
    PropertyMemWrite,
}

/// The entry point that the hook is put on.
pub const TARGET: HostFunction = HostFunction::PropertyDestroy;

/// The name of the host's property library.
pub open spec fn library_of(architecture: Architecture) -> Seq<char> {
    match architecture {
        Architecture::X86 => "libavs-win32.dll"@,
        Architecture::X86_64 => "libavs-win64.dll"@,
    }
}

/// The symbol by which the library of an architecture exports a function.
pub open spec fn symbol_of(architecture: Architecture, function: HostFunction) -> Seq<char> {
    match architecture {
        Architecture::X86 => match function {
            HostFunction::PropertyDestroy => "XCd229cc00013c"@,
            HostFunction::PropertySetFlag => "XCd229cc000035"@,
            HostFunction::PropertyClearError => "XCd229cc00014b"@,
            HostFunction::PropertyQuerySize => "XCd229cc000032"@,
            HostFunction::PropertySearch => "XCd229cc00012e"@,
            HostFunction::PropertyNodeName => "XCd229cc000049"@,
            HostFunction::PropertyNodeRead => "XCd229cc0000f3"@,
            HostFunction::PropertyNodeRefer => "XCd229cc000009"@,
            HostFunction::PropertyMemWrite => "XCd229cc000033"@,
        },
        Architecture::X86_64 => match function {
            HostFunction::PropertyDestroy => "XCnbrep7000091"@,
            HostFunction::PropertySetFlag => "XCnbrep700009a"@,
            HostFunction::PropertyClearError => "XCnbrep700009d"@,
            HostFunction::PropertyQuerySize => "XCnbrep700009f"@,
            HostFunction::PropertySearch => "XCnbrep70000a1"@,
            HostFunction::PropertyNodeName => "XCnbrep70000a7"@,
            HostFunction::PropertyNodeRead => "XCnbrep70000ab"@,
            HostFunction::PropertyNodeRefer => "XCnbrep70000af"@,
            HostFunction::PropertyMemWrite => "XCnbrep70000b8"@,
        },
    }
}

impl Architecture {
    /// The name of the host's property library.
    pub fn library(&self) -> (name: &'static str)
        ensures
            name@ == library_of(*self),
    {
        match self {
            Architecture::X86 => "libavs-win32.dll",
            Architecture::X86_64 => "libavs-win64.dll",
        }
    }

    /// The symbol by which the library exports a function.
    pub fn symbol(&self, function: HostFunction) -> (symbol: &'static str)
        ensures
            symbol@ == symbol_of(*self, function),
    {
        match self {
            Architecture::X86 => match function {
                HostFunction::PropertyDestroy => "XCd229cc00013c",
                HostFunction::PropertySetFlag => "XCd229cc000035",
                HostFunction::PropertyClearError => "XCd229cc00014b",
                HostFunction::PropertyQuerySize => "XCd229cc000032",
                HostFunction::PropertySearch => "XCd229cc00012e",
                HostFunction::PropertyNodeName => "XCd229cc000049",
                HostFunction::PropertyNodeRead => "XCd229cc0000f3",
                HostFunction::PropertyNodeRefer => "XCd229cc000009",
                HostFunction::PropertyMemWrite => "XCd229cc000033",
            },
            Architecture::X86_64 => match function {
                HostFunction::PropertyDestroy => "XCnbrep7000091",
                HostFunction::PropertySetFlag => "XCnbrep700009a",
                HostFunction::PropertyClearError => "XCnbrep700009d",
                HostFunction::PropertyQuerySize => "XCnbrep700009f",
                HostFunction::PropertySearch => "XCnbrep70000a1",
                HostFunction::PropertyNodeName => "XCnbrep70000a7",
                HostFunction::PropertyNodeRead => "XCnbrep70000ab",
                HostFunction::PropertyNodeRefer => "XCnbrep70000af",
                HostFunction::PropertyMemWrite => "XCnbrep70000b8",
            },
        }
    }
}

/// Within one architecture no two functions share a symbol: a symbol stands
/// for one function only.
pub proof fn law_symbols_are_distinct(
    architecture: Architecture,
    first: HostFunction,
    second: HostFunction,
)
    requires
        symbol_of(architecture, first) == symbol_of(architecture, second),
    ensures
        first == second,
{
    reveal_strlit("XCd229cc00013c");
    reveal_strlit("XCd229cc000035");
    reveal_strlit("XCd229cc00014b");
    reveal_strlit("XCd229cc000032");
    reveal_strlit("XCd229cc00012e");
    reveal_strlit("XCd229cc000049");
    reveal_strlit("XCd229cc0000f3");
    reveal_strlit("XCd229cc000009");
    reveal_strlit("XCd229cc000033");
    reveal_strlit("XCnbrep7000091");
    reveal_strlit("XCnbrep700009a");
    reveal_strlit("XCnbrep700009d");
    reveal_strlit("XCnbrep700009f");
    reveal_strlit("XCnbrep70000a1");
    reveal_strlit("XCnbrep70000a7");
    reveal_strlit("XCnbrep70000ab");
    reveal_strlit("XCnbrep70000af");
    reveal_strlit("XCnbrep70000b8");
    assert("XCd229cc00013c"@[11] != "XCd229cc000035"@[11]);
    assert("XCd229cc00013c"@[12] != "XCd229cc00014b"@[12]);
    assert("XCd229cc00013c"@[11] != "XCd229cc000032"@[11]);
    assert("XCd229cc00013c"@[12] != "XCd229cc00012e"@[12]);
    assert("XCd229cc00013c"@[11] != "XCd229cc000049"@[11]);
    assert("XCd229cc00013c"@[11] != "XCd229cc0000f3"@[11]);
    assert("XCd229cc00013c"@[11] != "XCd229cc000009"@[11]);
    assert("XCd229cc00013c"@[11] != "XCd229cc000033"@[11]);
    assert("XCd229cc000035"@[11] != "XCd229cc00014b"@[11]);
    assert("XCd229cc000035"@[13] != "XCd229cc000032"@[13]);
    assert("XCd229cc000035"@[11] != "XCd229cc00012e"@[11]);
    assert("XCd229cc000035"@[12] != "XCd229cc000049"@[12]);
    assert("XCd229cc000035"@[12] != "XCd229cc0000f3"@[12]);
    assert("XCd229cc000035"@[12] != "XCd229cc000009"@[12]);
    assert("XCd229cc000035"@[13] != "XCd229cc000033"@[13]);
    assert("XCd229cc00014b"@[11] != "XCd229cc000032"@[11]);
    assert("XCd229cc00014b"@[12] != "XCd229cc00012e"@[12]);
    assert("XCd229cc00014b"@[11] != "XCd229cc000049"@[11]);
    assert("XCd229cc00014b"@[11] != "XCd229cc0000f3"@[11]);
    assert("XCd229cc00014b"@[11] != "XCd229cc000009"@[11]);
    assert("XCd229cc00014b"@[11] != "XCd229cc000033"@[11]);
    assert("XCd229cc000032"@[11] != "XCd229cc00012e"@[11]);
    assert("XCd229cc000032"@[12] != "XCd229cc000049"@[12]);
    assert("XCd229cc000032"@[12] != "XCd229cc0000f3"@[12]);
    assert("XCd229cc000032"@[12] != "XCd229cc000009"@[12]);
    assert("XCd229cc000032"@[13] != "XCd229cc000033"@[13]);
    assert("XCd229cc00012e"@[11] != "XCd229cc000049"@[11]);
    assert("XCd229cc00012e"@[11] != "XCd229cc0000f3"@[11]);
    assert("XCd229cc00012e"@[11] != "XCd229cc000009"@[11]);
    assert("XCd229cc00012e"@[11] != "XCd229cc000033"@[11]);
    assert("XCd229cc000049"@[12] != "XCd229cc0000f3"@[12]);
    assert("XCd229cc000049"@[12] != "XCd229cc000009"@[12]);
    assert("XCd229cc000049"@[12] != "XCd229cc000033"@[12]);
    assert("XCd229cc0000f3"@[12] != "XCd229cc000009"@[12]);
    assert("XCd229cc0000f3"@[12] != "XCd229cc000033"@[12]);
    assert("XCd229cc000009"@[12] != "XCd229cc000033"@[12]);
    assert("XCnbrep7000091"@[13] != "XCnbrep700009a"@[13]);
    assert("XCnbrep7000091"@[13] != "XCnbrep700009d"@[13]);
    assert("XCnbrep7000091"@[13] != "XCnbrep700009f"@[13]);
    assert("XCnbrep7000091"@[12] != "XCnbrep70000a1"@[12]);
    assert("XCnbrep7000091"@[12] != "XCnbrep70000a7"@[12]);
    assert("XCnbrep7000091"@[12] != "XCnbrep70000ab"@[12]);
    assert("XCnbrep7000091"@[12] != "XCnbrep70000af"@[12]);
    assert("XCnbrep7000091"@[12] != "XCnbrep70000b8"@[12]);
    assert("XCnbrep700009a"@[13] != "XCnbrep700009d"@[13]);
    assert("XCnbrep700009a"@[13] != "XCnbrep700009f"@[13]);
    assert("XCnbrep700009a"@[12] != "XCnbrep70000a1"@[12]);
    assert("XCnbrep700009a"@[12] != "XCnbrep70000a7"@[12]);
    assert("XCnbrep700009a"@[12] != "XCnbrep70000ab"@[12]);
    assert("XCnbrep700009a"@[12] != "XCnbrep70000af"@[12]);
    assert("XCnbrep700009a"@[12] != "XCnbrep70000b8"@[12]);
    assert("XCnbrep700009d"@[13] != "XCnbrep700009f"@[13]);
    assert("XCnbrep700009d"@[12] != "XCnbrep70000a1"@[12]);
    assert("XCnbrep700009d"@[12] != "XCnbrep70000a7"@[12]);
    assert("XCnbrep700009d"@[12] != "XCnbrep70000ab"@[12]);
    assert("XCnbrep700009d"@[12] != "XCnbrep70000af"@[12]);
    assert("XCnbrep700009d"@[12] != "XCnbrep70000b8"@[12]);
    assert("XCnbrep700009f"@[12] != "XCnbrep70000a1"@[12]);
    assert("XCnbrep700009f"@[12] != "XCnbrep70000a7"@[12]);
    assert("XCnbrep700009f"@[12] != "XCnbrep70000ab"@[12]);
    assert("XCnbrep700009f"@[12] != "XCnbrep70000af"@[12]);
    assert("XCnbrep700009f"@[12] != "XCnbrep70000b8"@[12]);
    assert("XCnbrep70000a1"@[13] != "XCnbrep70000a7"@[13]);
    assert("XCnbrep70000a1"@[13] != "XCnbrep70000ab"@[13]);
    assert("XCnbrep70000a1"@[13] != "XCnbrep70000af"@[13]);
    assert("XCnbrep70000a1"@[12] != "XCnbrep70000b8"@[12]);
    assert("XCnbrep70000a7"@[13] != "XCnbrep70000ab"@[13]);
    assert("XCnbrep70000a7"@[13] != "XCnbrep70000af"@[13]);
    assert("XCnbrep70000a7"@[12] != "XCnbrep70000b8"@[12]);
    assert("XCnbrep70000ab"@[13] != "XCnbrep70000af"@[13]);
    assert("XCnbrep70000ab"@[12] != "XCnbrep70000b8"@[12]);
    assert("XCnbrep70000af"@[12] != "XCnbrep70000b8"@[12]);
}

} // verus!
