pub mod edit_distance;
pub mod levenshtein;
pub mod phonemic;
pub mod g2p;
