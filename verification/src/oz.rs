//! The text of Liber OZ.

use vstd::prelude::*;

verus! {

/// Liber LXXVII, "OZ", as it is printed: the text begins and ends with a
/// line break.
pub const LIBER_OZ: &'static str = "\
\n\
LIBER LXXVII\n\
OZ\n\
\n\
\"the law of\n\
the strong:\n\
this is our law\n\
and the joy\n\
of the world.\" AL. II. 21\n\
\n\
\"Do what thou wilt shall be the whole of the Law.\" --AL. I. 40\n\
\n\
\"thou hast no right but to do thy will. Do that, and no other shall say nay.\" --AL. I. 42-3\n\
\n\
\"Every man and every woman is a star.\" --AL. I. 3\n\
\n\
There is no god but man.\n\
\n\
1. Man has the right to live by his own law--\n\
\x20       to live in the way that he wills to do:\n\
\x20       to work as he will:\n\
\x20       to play as he will:\n\
\x20       to rest as he will:\n\
\x20       to die when and how he will.\n\
\n\
2. Man has the right to eat what he will:\n\
\x20       to drink what he will:\n\
\x20       to dwell where he will:\n\
\x20       to move as he will on the face of the earth.\n\
\n\
3. Man has the right to think what he will:\n\
\x20       to speak what he will:\n\
\x20       to write what he will:\n\
\x20       to draw, paint, carve, etch, mould, build as he will:\n\
\x20       to dress as he will.\n\
\n\
4. Man has the right to love as he will:--\n\
\x20       \"take your fill and will of love as ye will,\n\
\x20       when, where, and with whom ye will.\" --AL. I. 51\n\
\n\
5. Man has the right to kill those who would thwart these rights.\n\
\n\
\"the slaves shall serve.\" --AL. II. 58\n\
\n\
\"Love is the law, love under will.\" --AL. I. 57\n\
";

} // verus!
