use crate::text::{spec_dec, u16_to_dec};
use vstd::prelude::*;
use vstd::string::StringExecFns;

verus! {

/// The interactive client's state: the server it talks to and, once the
/// sign-in and room flows have run, who is signed in and which room they
/// entered.
#[derive(Debug)]
pub struct CliClient {
    pub server_endpoint: String,
    pub current_username: String,
    pub current_room: String,
}

impl CliClient {
    /// Builds a client pointed at the server's address, with nobody signed
    /// in and no room entered.
    pub fn new(server_host: String, server_port: u16) -> (client: CliClient)
        ensures
            client.server_endpoint@ == "http://"@ + server_host@ + ":"@ + spec_dec(
                server_port as nat,
            ),
            client.current_username@ == Seq::<char>::empty(),
            client.current_room@ == Seq::<char>::empty(),
    {
        let port = u16_to_dec(server_port);
        let endpoint = "http://".to_owned().concat(server_host.as_str()).concat(":").concat(
            port.as_str(),
        );
        CliClient {
            server_endpoint: endpoint,
            current_username: String::new(),
            current_room: String::new(),
        }
    }
}

} // verus!
