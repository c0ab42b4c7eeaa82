/// The aspect-preserving image-to-viewport fit algorithm.
pub mod fit;
/// The key map: which command each input event stands for.
pub mod input;
/// The browsing state: the ordered image list and the cursor.
pub mod viewer;
