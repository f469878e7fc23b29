//! The graphics demos that the shader playground offers.

use vstd::prelude::*;

verus! {

/// One of the demos that can be selected in the playground.
#[derive(Copy, Clone, PartialEq, Eq, Structural, Debug)]
pub enum Demo {
    CubePlanet,
    Animals,
    FragIntro,
}

impl Demo {
    /// The label shown on the demo's tab, as contracts speak of it.
    pub open spec fn label_of(self) -> Seq<char> {
        match self {
            Demo::Animals => "Procedurally Animated Animals"@,
            Demo::CubePlanet => "Cube Planet Visualizer"@,
            Demo::FragIntro => "Fragment Shader Intro"@,
        }
    }

    /// The file names of the vertex and the fragment shader that the demo
    /// starts with, as contracts speak of them.
    pub open spec fn shaders_of(self) -> (Seq<char>, Seq<char>) {
        match self {
            Demo::Animals => ("fish.vert.wgsl"@, "fish.frag.wgsl"@),
            Demo::CubePlanet => ("cube.vert.wgsl"@, "cube.frag.wgsl"@),
            Demo::FragIntro => ("frag_intro.vert.wgsl"@, "frag_intro.frag.wgsl"@),
        }
    }

    /// The human-readable label of the demo.
    pub fn label(&self) -> (s: &'static str)
        ensures
            s@ == self.label_of(),
    {
        match self {
            Demo::Animals => "Procedurally Animated Animals",
            Demo::CubePlanet => "Cube Planet Visualizer",
            Demo::FragIntro => "Fragment Shader Intro",
        }
    }

    /// The vertex and the fragment shader that the demo starts with, each by
    /// the name of its file among the shader sources.
    pub fn shaders(&self) -> (pair: (&'static str, &'static str))
        ensures
            (pair.0@, pair.1@) == self.shaders_of(),
    {
        match self {
            Demo::Animals => ("fish.vert.wgsl", "fish.frag.wgsl"),
            Demo::CubePlanet => ("cube.vert.wgsl", "cube.frag.wgsl"),
            Demo::FragIntro => ("frag_intro.vert.wgsl", "frag_intro.frag.wgsl"),
        }
    }
}

} // verus!
