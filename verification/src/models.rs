//! Stored records.
use vstd::prelude::*;

verus! {

/// A character as storage keeps it: one row per character.
#[derive(Clone, Debug, PartialEq, Eq)]
pub struct Character {
    /// Object ID.
    pub id: i32,
    /// Name of the account this character belongs to.
    pub username: String,
    /// Name of the character.
    pub name: String,
    /// Torso color.
    pub torso_color: i32,
    /// Legs color.
    pub legs_color: i32,
    /// Hair style.
    pub hair_style: i32,
    /// Hair color.
    pub hair_color: i32,
    /// Eyebrow style.
    pub eyebrows_style: i32,
    /// Eye style.
    pub eyes_style: i32,
    /// Mouth style.
    pub mouth_style: i32,
    /// Zone ID of the world where the character is.
    pub world_zone: i32,
    /// Instance ID of the world where the character is.
    pub world_instance: i32,
    /// Clone ID of the world where the character is.
    pub world_clone: i32,
}


/// A stored character, as a mathematical value.
pub struct CharacterView {
    pub id: i32,
    pub username: Seq<char>,
    pub name: Seq<char>,
    pub torso_color: i32,
    pub legs_color: i32,
    pub hair_style: i32,
    pub hair_color: i32,
    pub eyebrows_style: i32,
    pub eyes_style: i32,
    pub mouth_style: i32,
    pub world_zone: i32,
    pub world_instance: i32,
    pub world_clone: i32,
}

impl View for Character {
    type V = CharacterView;

    open spec fn view(&self) -> CharacterView {
        CharacterView {
            id: self.id,
            username: self.username@,
            name: self.name@,
            torso_color: self.torso_color,
            legs_color: self.legs_color,
            hair_style: self.hair_style,
            hair_color: self.hair_color,
            eyebrows_style: self.eyebrows_style,
            eyes_style: self.eyes_style,
            mouth_style: self.mouth_style,
            world_zone: self.world_zone,
            world_instance: self.world_instance,
            world_clone: self.world_clone,
        }
    }
}

} // verus!
