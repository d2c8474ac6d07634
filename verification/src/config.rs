use vstd::prelude::*;

use crate::text::{decimal, push_decimal};

verus! {

/// Connection parameters of the PostgreSQL database.
#[derive(Debug)]
pub struct DatabaseConfig {
    pub user: String,
    pub password: String,
    pub host: String,
    pub port: u16,
    pub name: String,
}

impl Default for DatabaseConfig {
    fn default() -> (c: Self)
        ensures
            c.user@ == "mensatt"@,
            c.password@ == "password"@,
            c.host@ == "localhost"@,
            c.port == 5432,
            c.name@ == "mensatt"@,
    {
        DatabaseConfig {
            user: String::from_str("mensatt"),
            password: String::from_str("password"),
            host: String::from_str("localhost"),
            port: 5432,
            name: String::from_str("mensatt"),
        }
    }
}

/// `postgres://<user>:<password>@<host>:<port>/<name>`
pub open spec fn database_url(
    user: Seq<char>,
    password: Seq<char>,
    host: Seq<char>,
    port: nat,
    name: Seq<char>,
) -> Seq<char> {
    "postgres://"@ + user + ":"@ + password + "@"@ + host + ":"@ + decimal(port) + "/"@ + name
}

impl DatabaseConfig {
    /// The connection URL of the database.
    pub fn url(&self) -> (u: String)
        ensures
            u@ == database_url(self.user@, self.password@, self.host@, self.port as nat, self.name@),
    {
        let mut u = String::from_str("postgres://");
        u.append(self.user.as_str());
        u.append(":");
        u.append(self.password.as_str());
        u.append("@");
        u.append(self.host.as_str());
        u.append(":");
        push_decimal(&mut u, self.port as u64);
        u.append("/");
        u.append(self.name.as_str());
        assert(u@ =~= database_url(self.user@, self.password@, self.host@, self.port as nat, self.name@));
        u
    }
}

/// Where the RSA key pair for signing tokens is found, and how long tokens live.
#[derive(Debug)]
pub struct JwtConfig {
    pub private_key_path: String,
    pub public_key_path: String,
    pub lifetime_in_secs: i64,
}

impl Default for JwtConfig {
    fn default() -> (c: Self)
        ensures
            c.private_key_path@ == "private_key.pem"@,
            c.public_key_path@ == "public_key.pem"@,
            c.lifetime_in_secs == 24 * 60 * 60,
    {
        JwtConfig {
            private_key_path: String::from_str("private_key.pem"),
            public_key_path: String::from_str("public_key.pem"),
            lifetime_in_secs: 86400,
        }
    }
}

/// Location of and credentials for the image service.
#[derive(Debug)]
pub struct ImageServiceConfig {
    pub url: String,
    pub api_key: String,
}

impl Clone for ImageServiceConfig {
    fn clone(&self) -> (c: Self)
        ensures
            c == *self,
    {
        ImageServiceConfig { url: self.url.clone(), api_key: self.api_key.clone() }
    }
}

impl Default for ImageServiceConfig {
    fn default() -> (c: Self)
        ensures
            c.url@ == "http://localhost:3000"@,
            c.api_key@ == Seq::<char>::empty(),
    {
        ImageServiceConfig {
            url: String::from_str("http://localhost:3000"),
            api_key: String::new(),
        }
    }
}

/// The complete configuration of the server.
#[derive(Debug)]
pub struct AppConfig {
    pub database: DatabaseConfig,
    pub jwt: JwtConfig,
    pub image_service: ImageServiceConfig,
    /// HTTP path prefix if running behind a proxy.
    pub proxy_prefix: String,
}

impl AppConfig {
    /// A path of the server as seen from outside, behind the proxy prefix.
    pub fn external_path(&self, path: &str) -> (p: String)
        ensures
            p@ == self.proxy_prefix@ + path@,
    {
        let mut p = self.proxy_prefix.clone();
        p.append(path);
        p
    }
}

} // verus!
