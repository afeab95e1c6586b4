//! The decision the companion gateway makes for its protected page,
//! given the status the token-verification endpoint answered with.

use vstd::prelude::*;

verus! {

/// Body of the protected page's successful reply.
#[derive(Debug, PartialEq, Eq)]
pub struct ProtectedRouteResponse {
    pub img_url: String,
}

/// Maps the token-verification status to the gateway's own reply: 200
/// passes the resource through, an authorization failure stays 401, and
/// anything else is a server error.
pub fn protected_route_decision(verify_status: u16) -> (r: Result<ProtectedRouteResponse, u16>)
    ensures
        match r {
            Ok(resp) => verify_status == 200 && resp.img_url@
                == "https://i.ibb.co/YP90j68/Light-Live-Bootcamp-Certificate.png"@,
            Err(code) => verify_status != 200 && code == (
            if verify_status == 401 || verify_status == 400 {
                401u16
            } else {
                500u16
            }),
        },
{
    if verify_status == 200 {
        Ok(
            ProtectedRouteResponse {
                img_url: String::from_str(
                    "https://i.ibb.co/YP90j68/Light-Live-Bootcamp-Certificate.png",
                ),
            },
        )
    } else if verify_status == 401 || verify_status == 400 {
        Err(401)
    } else {
        Err(500)
    }
}

} // verus!
