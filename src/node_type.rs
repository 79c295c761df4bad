//! The closed set of proxy protocols and their canonical names.
use vstd::prelude::*;

verus! {

/// Supported proxy node types.
#[derive(Debug, Clone, Copy, PartialEq, Eq, Hash, Structural)]
pub enum NodeType {
    Trojan,
    ShadowSocks,
    Hysteria,
    Hysteria2,
    VMess,
    AnyTLS,
    Tuic,
}

/// Lowercase form of a string, as `str::to_lowercase` computes it.
pub uninterp spec fn lowercase_of(s: Seq<char>) -> Seq<char>;

/// Relies on `str::to_lowercase`: the result is the Unicode lowercase form of
/// the input and depends on its characters alone.
#[verifier::external_body]
fn to_lowercase(s: &str) -> (r: String)
    ensures
        r@ == lowercase_of(s@),
{
    s.to_lowercase()
}

/// The message of the error that `NodeType::parse` reports for `s`.
pub open spec fn unknown_node_type_message(s: Seq<char>) -> Seq<char> {
    "Unknown node type: "@ + s
}

/// The node type that an already lowercased name denotes, if any.
pub open spec fn node_type_of_name(name: Seq<char>) -> Option<NodeType> {
    if name == "trojan"@ {
        Some(NodeType::Trojan)
    } else if name == "shadowsocks"@ || name == "ss"@ {
        Some(NodeType::ShadowSocks)
    } else if name == "hysteria"@ {
        Some(NodeType::Hysteria)
    } else if name == "hysteria2"@ {
        Some(NodeType::Hysteria2)
    } else if name == "vmess"@ {
        Some(NodeType::VMess)
    } else if name == "anytls"@ {
        Some(NodeType::AnyTLS)
    } else if name == "tuic"@ {
        Some(NodeType::Tuic)
    } else {
        None
    }
}

/// What `NodeType::parse` returns for the input `s`.
pub open spec fn parse_spec(s: Seq<char>) -> Result<NodeType, Seq<char>> {
    match node_type_of_name(lowercase_of(s)) {
        Some(t) => Ok(t),
        None => Err(unknown_node_type_message(s)),
    }
}

impl NodeType {
    /// Canonical lowercase name, used as the URL path segment.
    pub open spec fn name(self) -> Seq<char> {
        match self {
            NodeType::Trojan => "trojan"@,
            NodeType::ShadowSocks => "shadowsocks"@,
            NodeType::Hysteria => "hysteria"@,
            NodeType::Hysteria2 => "hysteria2"@,
            NodeType::VMess => "vmess"@,
            NodeType::AnyTLS => "anytls"@,
            NodeType::Tuic => "tuic"@,
        }
    }

    /// Get the URL path segment for this node type.
    pub fn as_str(&self) -> (r: &'static str)
        ensures
            r@ == self.name(),
    {
        match self {
            NodeType::Trojan => "trojan",
            NodeType::ShadowSocks => "shadowsocks",
            NodeType::Hysteria => "hysteria",
            NodeType::Hysteria2 => "hysteria2",
            NodeType::VMess => "vmess",
            NodeType::AnyTLS => "anytls",
            NodeType::Tuic => "tuic",
        }
    }

    /// The canonical name as an owned string.
    pub fn to_string(&self) -> (r: String)
        ensures
            r@ == self.name(),
    {
        self.as_str().to_owned()
    }

    /// Parse a name that is already in lowercase form: the canonical names
    /// and the alias `ss` for ShadowSocks.
    pub fn from_lowercase_name(name: &str) -> (r: Option<NodeType>)
        ensures
            r == node_type_of_name(name@),
    {
        let name = name.to_owned();
        if name == "trojan".to_owned() {
            Some(NodeType::Trojan)
        } else if name == "shadowsocks".to_owned() || name == "ss".to_owned() {
            Some(NodeType::ShadowSocks)
        } else if name == "hysteria".to_owned() {
            Some(NodeType::Hysteria)
        } else if name == "hysteria2".to_owned() {
            Some(NodeType::Hysteria2)
        } else if name == "vmess".to_owned() {
            Some(NodeType::VMess)
        } else if name == "anytls".to_owned() {
            Some(NodeType::AnyTLS)
        } else if name == "tuic".to_owned() {
            Some(NodeType::Tuic)
        } else {
            None
        }
    }

    /// Parse a node type name, ignoring case; `ss` is accepted for
    /// ShadowSocks. An unknown name yields a message that names it.
    pub fn parse(s: &str) -> (r: Result<NodeType, String>)
        ensures
            r matches Ok(t) ==> parse_spec(s@) == Ok::<NodeType, Seq<char>>(t),
            r matches Err(m) ==> parse_spec(s@) == Err::<NodeType, Seq<char>>(m@),
    {
        let lower = to_lowercase(s);
        match NodeType::from_lowercase_name(lower.as_str()) {
            Some(t) => Ok(t),
            None => {
                let mut message = "Unknown node type: ".to_owned();
                message.append(s);
                Err(message)
            },
        }
    }
}

/// Every node type's canonical name reads back as that node type, and so does
/// every string whose lowercase form is that name; the alias `ss` reads as
/// ShadowSocks, whose canonical name is `shadowsocks` and not `ss`.
pub proof fn lemma_parse_round_trip(t: NodeType, s: Seq<char>)
    ensures
        node_type_of_name(t.name()) == Some(t),
        lowercase_of(s) == t.name() ==> parse_spec(s) == Ok::<NodeType, Seq<char>>(t),
        node_type_of_name("ss"@) == Some(NodeType::ShadowSocks),
        NodeType::ShadowSocks.name() == "shadowsocks"@,
        NodeType::ShadowSocks.name() != "ss"@,
{
    reveal_strlit("trojan");
    reveal_strlit("shadowsocks");
    reveal_strlit("ss");
    reveal_strlit("hysteria");
    reveal_strlit("hysteria2");
    reveal_strlit("vmess");
    reveal_strlit("anytls");
    reveal_strlit("tuic");
    assert("trojan"@.len() == 6 && "anytls"@.len() == 6 && "trojan"@[0] != "anytls"@[0]);
    assert("shadowsocks"@.len() == 11 && "ss"@.len() == 2 && "tuic"@.len() == 4);
    assert("hysteria"@.len() == 8 && "hysteria2"@.len() == 9 && "vmess"@.len() == 5);
}

impl std::str::FromStr for NodeType {
    type Err = String;

    /// Parse a node type name as `NodeType::parse` does.
    fn from_str(s: &str) -> (r: Result<NodeType, String>)
        ensures
            r matches Ok(t) ==> parse_spec(s@) == Ok::<NodeType, Seq<char>>(t),
            r matches Err(m) ==> parse_spec(s@) == Err::<NodeType, Seq<char>>(m@),
    {
        NodeType::parse(s)
    }
}

} // verus!
