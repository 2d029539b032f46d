use vstd::prelude::*;

verus! {

/// The HTTP commands.
#[derive(Debug)]
pub enum HttpSubCommand {
    /// Serve a directory over HTTP.
    Serve(HttpServeOpts),
}

/// Options of `http serve`.
#[derive(Clone, Debug)]
pub struct HttpServeOpts {
    /// The directory to serve.
    pub dir: String,
    /// The port to listen on.
    pub port: u16,
}

} // verus!
