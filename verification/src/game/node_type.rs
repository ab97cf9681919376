use vstd::prelude::*;

verus! {

/// Kind of infrastructure node that a tile can carry.
///
/// `Empty` stands for the absence of a node; as a hotbar selection it
/// acts as the eraser.
#[derive(Clone, Copy, Debug, PartialEq, Eq, Structural, Hash)]
pub enum NodeType {
    Empty,
    Internet,
    LoadBalancer,
    Firewall,
    Database,
    Compute,
    Storage,
    Queue,
    Cache,
    CDN,
}

impl Default for NodeType {
    fn default() -> (r: Self)
        ensures
            r == NodeType::Empty,
    {
        NodeType::Empty
    }
}

impl NodeType {
    /// Every node type, in hotbar order.
    pub open spec fn spec_all() -> Seq<NodeType> {
        seq![
            NodeType::Empty,
            NodeType::Internet,
            NodeType::LoadBalancer,
            NodeType::Firewall,
            NodeType::Database,
            NodeType::Compute,
            NodeType::Storage,
            NodeType::Queue,
            NodeType::Cache,
            NodeType::CDN,
        ]
    }

    /// The short label shown on the hotbar.
    pub open spec fn spec_name(self) -> Seq<char> {
        match self {
            NodeType::Empty => "Dlt"@,
            NodeType::Internet => "W.W.W"@,
            NodeType::LoadBalancer => "LB"@,
            NodeType::Firewall => "FW"@,
            NodeType::Database => "DB"@,
            NodeType::Compute => "Cmput"@,
            NodeType::Storage => "Strg"@,
            NodeType::Queue => "Que"@,
            NodeType::Cache => "Cch"@,
            NodeType::CDN => "CDN"@,
        }
    }

    /// Asset path of the node's mesh: the first primitive of the first
    /// mesh in its model file. The eraser has none.
    pub open spec fn spec_mesh_path(self) -> Option<Seq<char>> {
        match self {
            NodeType::Empty => None,
            NodeType::Internet => Some("models/Internet.glb#Mesh0/Primitive0"@),
            NodeType::LoadBalancer => Some("models/LoadBalancer.glb#Mesh0/Primitive0"@),
            NodeType::Firewall => Some("models/Firewall.glb#Mesh0/Primitive0"@),
            NodeType::Database => Some("models/Database.glb#Mesh0/Primitive0"@),
            NodeType::Compute => Some("models/Compute.glb#Mesh0/Primitive0"@),
            NodeType::Storage => Some("models/Storage.glb#Mesh0/Primitive0"@),
            NodeType::Queue => Some("models/Queue.glb#Mesh0/Primitive0"@),
            NodeType::Cache => Some("models/Cache.glb#Mesh0/Primitive0"@),
            NodeType::CDN => Some("models/CDN.glb#Mesh0/Primitive0"@),
        }
    }

    /// Asset path of the node's scene: the first scene in its model file.
    /// The eraser has none.
    pub open spec fn spec_model_path(self) -> Option<Seq<char>> {
        match self {
            NodeType::Empty => None,
            NodeType::Internet => Some("models/Internet.glb#Scene0"@),
            NodeType::LoadBalancer => Some("models/LoadBalancer.glb#Scene0"@),
            NodeType::Firewall => Some("models/Firewall.glb#Scene0"@),
            NodeType::Database => Some("models/Database.glb#Scene0"@),
            NodeType::Compute => Some("models/Compute.glb#Scene0"@),
            NodeType::Storage => Some("models/Storage.glb#Scene0"@),
            NodeType::Queue => Some("models/Queue.glb#Scene0"@),
            NodeType::Cache => Some("models/Cache.glb#Scene0"@),
            NodeType::CDN => Some("models/CDN.glb#Scene0"@),
        }
    }

    pub fn name(self) -> (r: &'static str)
        ensures
            r@ == self.spec_name(),
    {
        match self {
            NodeType::Empty => "Dlt",
            NodeType::Internet => "W.W.W",
            NodeType::LoadBalancer => "LB",
            NodeType::Firewall => "FW",
            NodeType::Database => "DB",
            NodeType::Compute => "Cmput",
            NodeType::Storage => "Strg",
            NodeType::Queue => "Que",
            NodeType::Cache => "Cch",
            NodeType::CDN => "CDN",
        }
    }

    pub fn mesh_path(self) -> (r: Option<&'static str>)
        ensures
            r.is_some() == self.spec_mesh_path().is_some(),
            r.is_some() ==> r.unwrap()@ == self.spec_mesh_path().unwrap(),
    {
        match self {
            NodeType::Empty => None,
            NodeType::Internet => Some("models/Internet.glb#Mesh0/Primitive0"),
            NodeType::LoadBalancer => Some("models/LoadBalancer.glb#Mesh0/Primitive0"),
            NodeType::Firewall => Some("models/Firewall.glb#Mesh0/Primitive0"),
            NodeType::Database => Some("models/Database.glb#Mesh0/Primitive0"),
            NodeType::Compute => Some("models/Compute.glb#Mesh0/Primitive0"),
            NodeType::Storage => Some("models/Storage.glb#Mesh0/Primitive0"),
            NodeType::Queue => Some("models/Queue.glb#Mesh0/Primitive0"),
            NodeType::Cache => Some("models/Cache.glb#Mesh0/Primitive0"),
            NodeType::CDN => Some("models/CDN.glb#Mesh0/Primitive0"),
        }
    }

    pub fn model_path(self) -> (r: Option<&'static str>)
        ensures
            r.is_some() == self.spec_model_path().is_some(),
            r.is_some() ==> r.unwrap()@ == self.spec_model_path().unwrap(),
    {
        match self {
            NodeType::Empty => None,
            NodeType::Internet => Some("models/Internet.glb#Scene0"),
            NodeType::LoadBalancer => Some("models/LoadBalancer.glb#Scene0"),
            NodeType::Firewall => Some("models/Firewall.glb#Scene0"),
            NodeType::Database => Some("models/Database.glb#Scene0"),
            NodeType::Compute => Some("models/Compute.glb#Scene0"),
            NodeType::Storage => Some("models/Storage.glb#Scene0"),
            NodeType::Queue => Some("models/Queue.glb#Scene0"),
            NodeType::Cache => Some("models/Cache.glb#Scene0"),
            NodeType::CDN => Some("models/CDN.glb#Scene0"),
        }
    }

    /// Every node type with its label, in hotbar order.
    pub fn all_types() -> (r: [(NodeType, &'static str); 10])
        ensures
            r@.len() == 10,
            forall|i: int|
                0 <= i < 10 ==> (#[trigger] r@[i]).0 == NodeType::spec_all()[i] && r@[i].1@
                    == NodeType::spec_all()[i].spec_name(),
    {
        [
            (NodeType::Empty, "Dlt"),
            (NodeType::Internet, "W.W.W"),
            (NodeType::LoadBalancer, "LB"),
            (NodeType::Firewall, "FW"),
            (NodeType::Database, "DB"),
            (NodeType::Compute, "Cmput"),
            (NodeType::Storage, "Strg"),
            (NodeType::Queue, "Que"),
            (NodeType::Cache, "Cch"),
            (NodeType::CDN, "CDN"),
        ]
    }

    /// Every node type with its label, in hotbar order.
    pub fn all() -> (r: Vec<(NodeType, &'static str)>)
        ensures
            r@.len() == 10,
            forall|i: int|
                0 <= i < 10 ==> (#[trigger] r@[i]).0 == NodeType::spec_all()[i] && r@[i].1@
                    == NodeType::spec_all()[i].spec_name(),
    {
        let table = NodeType::all_types();
        let mut r: Vec<(NodeType, &'static str)> = Vec::new();
        let mut i: usize = 0;
        while i < 10
            invariant
                i <= 10,
                r@.len() == i,
                table@.len() == 10,
                forall|k: int| 0 <= k < i ==> (#[trigger] r@[k]) == table@[k],
            decreases 10 - i,
        {
            r.push(table[i]);
            i += 1;
        }
        r
    }

    /// Position of the node type in hotbar order.
    pub open spec fn spec_index(self) -> int {
        match self {
            NodeType::Empty => 0,
            NodeType::Internet => 1,
            NodeType::LoadBalancer => 2,
            NodeType::Firewall => 3,
            NodeType::Database => 4,
            NodeType::Compute => 5,
            NodeType::Storage => 6,
            NodeType::Queue => 7,
            NodeType::Cache => 8,
            NodeType::CDN => 9,
        }
    }
}

/// The hotbar lists every node type exactly once: a node type stands at
/// its own index, and nowhere else.
pub proof fn lemma_all_lists_each_once(t: NodeType, i: int)
    ensures
        NodeType::spec_all().len() == 10,
        0 <= t.spec_index() < 10,
        NodeType::spec_all()[t.spec_index()] == t,
        0 <= i < 10 && NodeType::spec_all()[i] == t ==> i == t.spec_index(),
{
}

/// Exactly the eraser has neither mesh nor scene.
pub proof fn lemma_only_eraser_lacks_assets(t: NodeType)
    ensures
        t.spec_mesh_path().is_none() <==> t == NodeType::Empty,
        t.spec_model_path().is_none() <==> t == NodeType::Empty,
{
}

} // verus!
