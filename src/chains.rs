//! The static catalog of kinematic chain descriptors.
use vstd::prelude::*;

verus! {

/// One named kinematic chain: identifier, display name, description,
/// degrees of freedom and joint-type label.
pub struct ChainInfo {
    pub id: String,
    pub name: String,
    pub description: String,
    pub dof: u32,
    pub joint_type: String,
}

/// The view of a chain descriptor: its text fields as character sequences.
pub struct ChainSpec {
    pub id: Seq<char>,
    pub name: Seq<char>,
    pub description: Seq<char>,
    pub dof: u32,
    pub joint_type: Seq<char>,
}

impl View for ChainInfo {
    type V = ChainSpec;

    open spec fn view(&self) -> ChainSpec {
        ChainSpec {
            id: self.id@,
            name: self.name@,
            description: self.description@,
            dof: self.dof,
            joint_type: self.joint_type@,
        }
    }
}

/// The fixed catalog, in listing order.
pub open spec fn catalog() -> Seq<ChainSpec> {
    seq![
        ChainSpec {
            id: "human_arm"@,
            name: "Human Arm"@,
            description: "7-DOF human arm: shoulder(3) + elbow(1) + wrist(3)"@,
            dof: 7,
            joint_type: "revolute"@,
        },
        ChainSpec {
            id: "human_leg"@,
            name: "Human Leg"@,
            description: "6-DOF human leg: hip(3) + knee(1) + ankle(2)"@,
            dof: 6,
            joint_type: "revolute"@,
        },
        ChainSpec {
            id: "robotic_arm_6dof"@,
            name: "Robotic Arm (6-DOF)"@,
            description: "Standard industrial 6-DOF manipulator"@,
            dof: 6,
            joint_type: "revolute"@,
        },
        ChainSpec {
            id: "delta_robot"@,
            name: "Delta Robot"@,
            description: "3-DOF parallel kinematic delta robot for high-speed pick-and-place"@,
            dof: 3,
            joint_type: "prismatic"@,
        },
        ChainSpec {
            id: "scara"@,
            name: "SCARA"@,
            description: "4-DOF selective compliance assembly robot arm"@,
            dof: 4,
            joint_type: "revolute+prismatic"@,
        },
    ]
}

fn chain(id: &str, name: &str, description: &str, dof: u32, joint_type: &str) -> (r: ChainInfo)
    ensures
        r@ == (ChainSpec { id: id@, name: name@, description: description@, dof, joint_type: joint_type@ }),
{
    ChainInfo {
        id: id.to_string(),
        name: name.to_string(),
        description: description.to_string(),
        dof,
        joint_type: joint_type.to_string(),
    }
}

/// Lists the catalog: always the same five chains, in the same order.
pub fn chains() -> (r: Vec<ChainInfo>)
    ensures
        r@.len() == catalog().len(),
        forall|i: int| 0 <= i < r@.len() ==> (#[trigger] r@[i])@ == catalog()[i],
{
    let mut v: Vec<ChainInfo> = Vec::new();
    v.push(chain("human_arm", "Human Arm", "7-DOF human arm: shoulder(3) + elbow(1) + wrist(3)", 7, "revolute"));
    v.push(chain("human_leg", "Human Leg", "6-DOF human leg: hip(3) + knee(1) + ankle(2)", 6, "revolute"));
    v.push(chain("robotic_arm_6dof", "Robotic Arm (6-DOF)", "Standard industrial 6-DOF manipulator", 6, "revolute"));
    v.push(chain("delta_robot", "Delta Robot", "3-DOF parallel kinematic delta robot for high-speed pick-and-place", 3, "prismatic"));
    v.push(chain("scara", "SCARA", "4-DOF selective compliance assembly robot arm", 4, "revolute+prismatic"));
    v
}

} // verus!
