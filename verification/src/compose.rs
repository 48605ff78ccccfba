//! Composition of the generation prompt and of the published comment.
//!
//! The prompt handed to the text-generation service is a fixed requirements
//! template, a fixed instruction, and the item's body. The published comment
//! is a fixed header, the precheck advisory text, and the generated review,
//! joined by blank lines.

use vstd::prelude::*;

verus! {

/// The review requirements prepended to every generation prompt.
pub const REQUIREMENTS: &'static str = "\n# Here are the requirements for a NuttX PR\n\n## Summary\n\n* Why change is necessary (fix, update, new feature)?\n* What functional part of the code is being changed?\n* How does the change exactly work (what will change and how)?\n* Related [NuttX Issue](https://github.com/apache/nuttx/issues) reference if applicable.\n* Related NuttX Apps [Issue](https://github.com/apache/nuttx-apps/issues) / [Pull Request](https://github.com/apache/nuttx-apps/pulls) reference if applicable.\n\n## Impact\n\n* Is new feature added? Is existing feature changed?\n* Impact on user (will user need to adapt to change)? NO / YES (please describe if yes).\n* Impact on build (will build process change)? NO / YES (please descibe if yes).\n* Impact on hardware (will arch(s) / board(s) / driver(s) change)? NO / YES (please describe if yes).\n* Impact on documentation (is update required / provided)? NO / YES (please describe if yes).\n* Impact on security (any sort of implications)? NO / YES (please describe if yes).\n* Impact on compatibility (backward/forward/interoperability)? NO / YES (please describe if yes).\n* Anything else to consider?\n\n## Testing\n\nI confirm that changes are verified on local setup and works as intended:\n* Build Host(s): OS (Linux,BSD,macOS,Windows,..), CPU(Intel,AMD,ARM), compiler(GCC,CLANG,version), etc.\n* Target(s): arch(sim,RISC-V,ARM,..), board:config, etc.\n\nTesting logs before change:\n\n```\nyour testing logs here\n```\n\nTesting logs after change:\n```\nyour testing logs here\n```\n";

/// The instruction placed between the requirements and the item body.
pub const INSTRUCTION: &'static str = "\n\n# Does this PR meet the NuttX Requirements? Please be concise\n\n";

/// The header that opens every published comment.
pub const HEADER: &'static str = "[**\\[Experimental Bot, please feedback here\\]**](https://github.com/search?q=repo%3Aapache%2Fnuttx+13552&type=issues)";

/// The blank line that joins the parts of the published comment.
pub const JOINT: &'static str = "\n\n";

/// The full prompt handed to the generation service for a given item body:
/// requirements, instruction, body.
pub open spec fn prompt_spec(body: Seq<char>) -> Seq<char> {
    REQUIREMENTS@ + INSTRUCTION@ + body
}

/// The full comment published for an item: header, precheck advisory text
/// and generated review, joined by blank lines.
pub open spec fn comment_spec(advisory: Seq<char>, generated: Seq<char>) -> Seq<char> {
    HEADER@ + JOINT@ + advisory + JOINT@ + generated
}

/// Compose the generation prompt for an item body.
pub fn compose_prompt(body: &str) -> (prompt: String)
    ensures
        prompt@ == prompt_spec(body@),
{
    let mut prompt = String::from_str(REQUIREMENTS);
    prompt.append(INSTRUCTION);
    prompt.append(body);
    prompt
}

/// Compose the comment to publish from the precheck advisory text and the
/// generated review.
pub fn compose_comment(advisory: &str, generated: &str) -> (comment: String)
    ensures
        comment@ == comment_spec(advisory@, generated@),
{
    let mut comment = String::from_str(HEADER);
    comment.append(JOINT);
    comment.append(advisory);
    comment.append(JOINT);
    comment.append(generated);
    comment
}

} // verus!
