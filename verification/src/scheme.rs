//! The scheme registry: the statically known URI schemes, their IANA
//! registration metadata, and case-insensitive resolution of a scheme
//! token against the table.

use vstd::prelude::*;

use crate::text::ascii_lower;
use crate::text::is_valid_scheme_token;
use crate::text::lower_string;
use crate::text::token_matches;

verus! {

/// IANA registration status of a scheme.
#[derive(PartialEq, Eq, Structural, Clone, Copy, Debug)]
pub enum SchemeStatus {
    Permanent,
    Provisional,
    Historical,
    Unregistered,
}

/// A URI scheme: one of the statically known identifiers from the IANA
/// registry, or `Unknown` carrying an unrecognized scheme token verbatim.
#[derive(PartialEq, Eq, Clone, Debug)]
pub enum Scheme {
    Aaa,
    Aaas,
    About,
    Acap,
    Acct,
    Acr,
    Adiumxtra,
    Afp,
    Afs,
    Aim,
    Apt,
    Attachment,
    Aw,
    Barion,
    Beshare,
    Bitcoin,
    Bolo,
    Callto,
    Cap,
    Chrome,
    ChromeExtension,
    Cid,
    Coap,
    Coaps,
    ComEventbriteAttendee,
    Content,
    Crid,
    Cvs,
    Data,
    Dav,
    Dict,
    DlnaPlaycontanier,
    DlnaPlaysingle,
    Dns,
    Dtn,
    Dvb,
    Ed2k,
    Facetime,
    Fax,
    Feed,
    Feedready,
    File,
    Finger,
    Fish,
    Ftp,
    Geo,
    Gg,
    Git,
    Gizmoproject,
    Go,
    Gopher,
    Gtalk,
    H323,
    Ham,
    Hcp,
    Http,
    Https,
    Iax,
    Icap,
    Icon,
    Imap,
    Im,
    Info,
    Ipn,
    Ipp,
    Ipps,
    Irc6,
    Irc,
    Ircs,
    IrisBeep,
    Iris,
    IrisLwz,
    IrisXpc,
    IrisXpcs,
    Itms,
    Jabber,
    Jar,
    Jms,
    Keyparc,
    Lastfm,
    Ldap,
    Ldaps,
    Magnet,
    Mailserver,
    Mailto,
    Maps,
    Market,
    Message,
    Mid,
    Mms,
    Modem,
    MsHelp,
    Msnim,
    Msrp,
    Msrps,
    MsSettingsPower,
    Mtqp,
    Mumble,
    Mupdate,
    Mvn,
    Mysql,
    News,
    Nfs,
    Nih,
    Ni,
    Nntp,
    Notes,
    Oid,
    Opaquelocktoken,
    Pack,
    Palm,
    Paparazzi,
    Pkcs11,
    Platform,
    Pop,
    Postgres,
    Postgresql,
    Pres,
    Prospero,
    Proxy,
    Psyc,
    Query,
    Reload,
    Resource,
    Res,
    Rmi,
    Rsync,
    Rtmfp,
    Rtmp,
    Rtsp,
    Rtsps,
    Rtspu,
    Secondlife,
    Service,
    Session,
    Sftp,
    Sgn,
    Shttp,
    Sieve,
    Sip,
    Sips,
    Skype,
    Smb,
    Sms,
    Smtp,
    Snews,
    Snmp,
    SoapBeep,
    SoapBeeps,
    Soldat,
    Spotify,
    Ssh,
    Steam,
    Stuns,
    Stun,
    Submit,
    Svn,
    Tag,
    Teamspeak,
    Teliaeid,
    Telnet,
    Tel,
    Tftp,
    Things,
    ThisMessage,
    Tip,
    Tn3270,
    Turns,
    Turn,
    Tv,
    Udp,
    Unreal,
    Urn,
    Ut2004,
    Vemmi,
    Ventrilo,
    Videotex,
    ViewSource,
    Wais,
    Webcal,
    Wss,
    Ws,
    Wtai,
    Wyciwyg,
    XconUserid,
    Xcon,
    Xfire,
    XmlrpcBeeps,
    XmlrpcBeep,
    Xmpp,
    Xri,
    Ymsgr,
    Z3950r,
    Z3950s,
    Z3950,
    Unknown(String),
}

/// One row of the registry for each known scheme, as a single table:
/// canonical lowercase name, description, normative reference, and
/// registration status. For `Unknown` the name is the wrapped token
/// lowercased, the texts are empty, and the status is `Unregistered`.
// Registry data from the IANA URI scheme registry, as of 2014-02-07.
pub open spec fn registry_entry(s: Scheme) -> (Seq<char>, Seq<char>, Seq<char>, SchemeStatus) {
    match s {
        Scheme::Aaa => ("aaa"@, "Diameter Protocol"@, "[RFC6733]"@, SchemeStatus::Permanent),
        Scheme::Aaas => ("aaas"@, "Diameter Protocol with Secure Transport"@, "[RFC6733]"@, SchemeStatus::Permanent),
        Scheme::About => ("about"@, "about"@, "[RFC6694]"@, SchemeStatus::Permanent),
        Scheme::Acap => ("acap"@, "application configuration access protocol"@, "[RFC2244]"@, SchemeStatus::Permanent),
        Scheme::Acct => ("acct"@, "acct"@, "[RFC-ietf-appsawg-acct-uri-06]"@, SchemeStatus::Permanent),
        Scheme::Acr => ("acr"@, "acr"@, "[OMA-OMNA]"@, SchemeStatus::Provisional),
        Scheme::Adiumxtra => ("adiumxtra"@, "adiumxtra"@, "[Dave_Thaler]"@, SchemeStatus::Provisional),
        Scheme::Afp => ("afp"@, "afp"@, "[Dave_Thaler]"@, SchemeStatus::Provisional),
        Scheme::Afs => ("afs"@, "Andrew File System global file names"@, "[RFC1738]"@, SchemeStatus::Provisional),
        Scheme::Aim => ("aim"@, "aim"@, "[Dave_Thaler]"@, SchemeStatus::Provisional),
        Scheme::Apt => ("apt"@, "apt"@, "[Dave_Thaler]"@, SchemeStatus::Provisional),
        Scheme::Attachment => ("attachment"@, "attachment"@, "[Dave_Thaler]"@, SchemeStatus::Provisional),
        Scheme::Aw => ("aw"@, "aw"@, "[Dave_Thaler]"@, SchemeStatus::Provisional),
        Scheme::Barion => ("barion"@, "barion"@, "[Bíró_Tamás]"@, SchemeStatus::Provisional),
        Scheme::Beshare => ("beshare"@, "beshare"@, "[Dave_Thaler]"@, SchemeStatus::Provisional),
        Scheme::Bitcoin => ("bitcoin"@, "bitcoin"@, "[Dave_Thaler]"@, SchemeStatus::Provisional),
        Scheme::Bolo => ("bolo"@, "bolo"@, "[Dave_Thaler]"@, SchemeStatus::Provisional),
        Scheme::Callto => ("callto"@, "callto"@, "[Alexey_Melnikov]"@, SchemeStatus::Provisional),
        Scheme::Cap => ("cap"@, "Calendar Access Protocol"@, "[RFC4324]"@, SchemeStatus::Permanent),
        Scheme::Chrome => ("chrome"@, "chrome"@, "[Dave_Thaler]"@, SchemeStatus::Provisional),
        Scheme::ChromeExtension => ("chrome-extension"@, "chrome-extension"@, "[Dave_Thaler]"@, SchemeStatus::Provisional),
        Scheme::Cid => ("cid"@, "content identifier"@, "[RFC2392]"@, SchemeStatus::Permanent),
        Scheme::Coap => ("coap"@, "coap"@, "[RFC7252]"@, SchemeStatus::Permanent),
        Scheme::Coaps => ("coaps"@, "coaps"@, "[RFC7252]"@, SchemeStatus::Permanent),
        Scheme::ComEventbriteAttendee => ("com-eventbrite-attendee"@, "com-eventbrite-attendee"@, "[Bob_Van_Zant]"@, SchemeStatus::Provisional),
        Scheme::Content => ("content"@, "content"@, "[Dave_Thaler]"@, SchemeStatus::Provisional),
        Scheme::Crid => ("crid"@, "TV-Anytime Content Reference Identifier"@, "[RFC4078]"@, SchemeStatus::Permanent),
        Scheme::Cvs => ("cvs"@, "cvs"@, "[Dave_Thaler]"@, SchemeStatus::Provisional),
        Scheme::Data => ("data"@, "data"@, "[RFC2397]"@, SchemeStatus::Permanent),
        Scheme::Dav => ("dav"@, "dav"@, "[RFC4918]"@, SchemeStatus::Permanent),
        Scheme::Dict => ("dict"@, "dictionary service protocol"@, "[RFC2229]"@, SchemeStatus::Permanent),
        Scheme::DlnaPlaycontanier => ("dlna-playcontainer"@, "dlna-playcontainer"@, "[DLNA]"@, SchemeStatus::Provisional),
        Scheme::DlnaPlaysingle => ("dlna-playsingle"@, "dlna-playsingle"@, "[DLNA]"@, SchemeStatus::Provisional),
        Scheme::Dns => ("dns"@, "Domain Name System"@, "[RFC4501]"@, SchemeStatus::Permanent),
        Scheme::Dtn => ("dtn"@, "DTNRG research and development"@, "[RFC5050]"@, SchemeStatus::Provisional),
        Scheme::Dvb => ("dvb"@, "dvb"@, "[draft-mcroberts-uri-dvb]"@, SchemeStatus::Provisional),
        Scheme::Ed2k => ("ed2k"@, "ed2k"@, "[Dave_Thaler]"@, SchemeStatus::Provisional),
        Scheme::Facetime => ("facetime"@, "facetime"@, "[Dave_Thaler]"@, SchemeStatus::Provisional),
        Scheme::Fax => ("fax"@, "fax"@, "[RFC2806][RFC3966]"@, SchemeStatus::Historical),
        Scheme::Feed => ("feed"@, "feed"@, "[Dave_Thaler]"@, SchemeStatus::Provisional),
        Scheme::Feedready => ("feedready"@, "feedready"@, "[Mirko_Nosenzo]"@, SchemeStatus::Provisional),
        Scheme::File => ("file"@, "Host-specific file names"@, "[RFC1738]"@, SchemeStatus::Permanent),
        Scheme::Finger => ("finger"@, "finger"@, "[Dave_Thaler]"@, SchemeStatus::Provisional),
        Scheme::Fish => ("fish"@, "fish"@, "[Dave_Thaler]"@, SchemeStatus::Provisional),
        Scheme::Ftp => ("ftp"@, "File Transfer Protocol"@, "[RFC1738]"@, SchemeStatus::Permanent),
        Scheme::Geo => ("geo"@, "Geographic Locations"@, "[RFC5870]"@, SchemeStatus::Permanent),
        Scheme::Gg => ("gg"@, "gg"@, "[Dave_Thaler]"@, SchemeStatus::Provisional),
        Scheme::Git => ("git"@, "git"@, "[Dave_Thaler]"@, SchemeStatus::Provisional),
        Scheme::Gizmoproject => ("gizmoproject"@, "gizmoproject"@, "[Dave_Thaler]"@, SchemeStatus::Provisional),
        Scheme::Go => ("go"@, "go"@, "[RFC3368]"@, SchemeStatus::Permanent),
        Scheme::Gopher => ("gopher"@, "The Gopher Protocol"@, "[RFC4266]"@, SchemeStatus::Permanent),
        Scheme::Gtalk => ("gtalk"@, "gtalk"@, "[Dave_Thaler]"@, SchemeStatus::Provisional),
        Scheme::H323 => ("h323"@, "H.323"@, "[RFC3508]"@, SchemeStatus::Permanent),
        Scheme::Ham => ("ham"@, "ham"@, "[RFC7046]"@, SchemeStatus::Provisional),
        Scheme::Hcp => ("hcp"@, "hcp"@, "[Alexey_Melnikov]"@, SchemeStatus::Provisional),
        Scheme::Http => ("http"@, "Hypertext Transfer Protocol"@, "[RFC7230, Section 2.7.1]"@, SchemeStatus::Permanent),
        Scheme::Https => ("https"@, "Hypertext Transfer Protocol Secure"@, "[RFC7230, Section 2.7.2]"@, SchemeStatus::Permanent),
        Scheme::Iax => ("iax"@, "Inter-Asterisk eXchange Version 2"@, "[RFC5456]"@, SchemeStatus::Permanent),
        Scheme::Icap => ("icap"@, "Internet Content Adaptation Protocol"@, "[RFC3507]"@, SchemeStatus::Permanent),
        Scheme::Icon => ("icon"@, "icon"@, "[draft-lafayette-icon-uri-scheme]"@, SchemeStatus::Provisional),
        Scheme::Imap => ("imap"@, "internet message access protocol"@, "[RFC5092]"@, SchemeStatus::Permanent),
        Scheme::Im => ("im"@, "Instant Messaging"@, "[RFC3860]"@, SchemeStatus::Permanent),
        Scheme::Info => ("info"@, "Information Assets with Identifiers in Public Namespaces"@, "[RFC4452]"@, SchemeStatus::Permanent),
        Scheme::Ipn => ("ipn"@, "ipn"@, "[RFC6260]"@, SchemeStatus::Provisional),
        Scheme::Ipp => ("ipp"@, "Internet Printing Protocol"@, "[RFC3510]"@, SchemeStatus::Permanent),
        Scheme::Ipps => ("ipps"@, "Internet Printing Protocol over HTTPS"@, "[RFC-mcdonald-ipps-uri-scheme-18]"@, SchemeStatus::Permanent),
        Scheme::Irc6 => ("irc6"@, "irc6"@, "[Dave_Thaler]"@, SchemeStatus::Provisional),
        Scheme::Irc => ("irc"@, "irc"@, "[Dave_Thaler]"@, SchemeStatus::Provisional),
        Scheme::Ircs => ("ircs"@, "ircs"@, "[Dave_Thaler]"@, SchemeStatus::Provisional),
        Scheme::IrisBeep => ("iris.beep"@, "iris.beep"@, "[RFC3983]"@, SchemeStatus::Permanent),
        Scheme::Iris => ("iris"@, "Internet Registry Information Service"@, "[RFC3981]"@, SchemeStatus::Permanent),
        Scheme::IrisLwz => ("iris.lwz"@, "iris.lwz"@, "[RFC4993]"@, SchemeStatus::Permanent),
        Scheme::IrisXpc => ("iris.xpc"@, "iris.xpc"@, "[RFC4992]"@, SchemeStatus::Permanent),
        Scheme::IrisXpcs => ("iris.xpcs"@, "iris.xpcs"@, "[RFC4992]"@, SchemeStatus::Permanent),
        Scheme::Itms => ("itms"@, "itms"@, "[Dave_Thaler]"@, SchemeStatus::Provisional),
        Scheme::Jabber => ("jabber"@, "jabber"@, "[Peter_Saint-Andre]"@, SchemeStatus::Permanent),
        Scheme::Jar => ("jar"@, "jar"@, "[Dave_Thaler]"@, SchemeStatus::Provisional),
        Scheme::Jms => ("jms"@, "Java Message Service"@, "[RFC6167]"@, SchemeStatus::Provisional),
        Scheme::Keyparc => ("keyparc"@, "keyparc"@, "[Dave_Thaler]"@, SchemeStatus::Provisional),
        Scheme::Lastfm => ("lastfm"@, "lastfm"@, "[Dave_Thaler]"@, SchemeStatus::Provisional),
        Scheme::Ldap => ("ldap"@, "Lightweight Directory Access Protocol"@, "[RFC4516]"@, SchemeStatus::Permanent),
        Scheme::Ldaps => ("ldaps"@, "ldaps"@, "[Dave_Thaler]"@, SchemeStatus::Provisional),
        Scheme::Magnet => ("magnet"@, "magnet"@, "[Dave_Thaler]"@, SchemeStatus::Provisional),
        Scheme::Mailserver => ("mailserver"@, "Access to data available from mail servers"@, "[RFC6196]"@, SchemeStatus::Historical),
        Scheme::Mailto => ("mailto"@, "Electronic mail address"@, "[RFC6068]"@, SchemeStatus::Permanent),
        Scheme::Maps => ("maps"@, "maps"@, "[Dave_Thaler]"@, SchemeStatus::Provisional),
        Scheme::Market => ("market"@, "market"@, "[Dave_Thaler]"@, SchemeStatus::Provisional),
        Scheme::Message => ("message"@, "message"@, "[Dave_Thaler]"@, SchemeStatus::Provisional),
        Scheme::Mid => ("mid"@, "message identifier"@, "[RFC2392]"@, SchemeStatus::Permanent),
        Scheme::Mms => ("mms"@, "mms"@, "[Alexey_Melnikov]"@, SchemeStatus::Provisional),
        Scheme::Modem => ("modem"@, "modem"@, "[RFC2806][RFC3966]"@, SchemeStatus::Historical),
        Scheme::MsHelp => ("ms-help"@, "ms-help"@, "[Alexey_Melnikov]"@, SchemeStatus::Provisional),
        Scheme::Msnim => ("msnim"@, "msnim"@, "[Alexey_Melnikov]"@, SchemeStatus::Provisional),
        Scheme::Msrp => ("msrp"@, "Message Session Relay Protocol"@, "[RFC4975]"@, SchemeStatus::Permanent),
        Scheme::Msrps => ("msrps"@, "Message Session Relay Protocol Secure"@, "[RFC4975]"@, SchemeStatus::Permanent),
        Scheme::MsSettingsPower => ("ms-settings-power"@, "ms-settings-power"@, "[urischemeowners_at_microsoft.com]"@, SchemeStatus::Provisional),
        Scheme::Mtqp => ("mtqp"@, "Message Tracking Query Protocol"@, "[RFC3887]"@, SchemeStatus::Permanent),
        Scheme::Mumble => ("mumble"@, "mumble"@, "[Dave_Thaler]"@, SchemeStatus::Provisional),
        Scheme::Mupdate => ("mupdate"@, "Mailbox Update (MUPDATE) Protocol"@, "[RFC3656]"@, SchemeStatus::Permanent),
        Scheme::Mvn => ("mvn"@, "mvn"@, "[Dave_Thaler]"@, SchemeStatus::Provisional),
        Scheme::Mysql => ("mysql"@, "MySql Database Connection"@, ""@, SchemeStatus::Unregistered),
        Scheme::News => ("news"@, "USENET news"@, "[RFC5538]"@, SchemeStatus::Permanent),
        Scheme::Nfs => ("nfs"@, "network file system protocol"@, "[RFC2224]"@, SchemeStatus::Permanent),
        Scheme::Nih => ("nih"@, "nih"@, "[RFC6920]"@, SchemeStatus::Permanent),
        Scheme::Ni => ("ni"@, "ni"@, "[RFC6920]"@, SchemeStatus::Permanent),
        Scheme::Nntp => ("nntp"@, "USENET news using NNTP access"@, "[RFC5538]"@, SchemeStatus::Permanent),
        Scheme::Notes => ("notes"@, "notes"@, "[Dave_Thaler]"@, SchemeStatus::Provisional),
        Scheme::Oid => ("oid"@, "oid"@, "[draft-larmouth-oid-iri]"@, SchemeStatus::Provisional),
        Scheme::Opaquelocktoken => ("opaquelocktoken"@, "opaquelocktokent"@, "[RFC4918]"@, SchemeStatus::Permanent),
        Scheme::Pack => ("pack"@, "pack"@, "[draft-shur-pack-uri-scheme]"@, SchemeStatus::Historical),
        Scheme::Palm => ("palm"@, "palm"@, "[Dave_Thaler]"@, SchemeStatus::Provisional),
        Scheme::Paparazzi => ("paparazzi"@, "paparazzi"@, "[Dave_Thaler]"@, SchemeStatus::Provisional),
        Scheme::Pkcs11 => ("pkcs11"@, "pkcs11"@, "[draft-pechanec-pkcs11uri]"@, SchemeStatus::Provisional),
        Scheme::Platform => ("platform"@, "platform"@, "[Dave_Thaler]"@, SchemeStatus::Provisional),
        Scheme::Pop => ("pop"@, "Post Office Protocol v3"@, "[RFC2384]"@, SchemeStatus::Permanent),
        Scheme::Postgres => ("postgres"@, "Postgres Database Connection"@, ""@, SchemeStatus::Unregistered),
        Scheme::Postgresql => ("postgresql"@, "Postgres Database Connection"@, ""@, SchemeStatus::Unregistered),
        Scheme::Pres => ("pres"@, "Presence"@, "[RFC3859]"@, SchemeStatus::Permanent),
        Scheme::Prospero => ("prospero"@, "Prospero Directory Service"@, "[RFC4157]"@, SchemeStatus::Historical),
        Scheme::Proxy => ("proxy"@, "proxy"@, "[Dave_Thaler]"@, SchemeStatus::Provisional),
        Scheme::Psyc => ("psyc"@, "psyc"@, "[Dave_Thaler]"@, SchemeStatus::Provisional),
        Scheme::Query => ("query"@, "query"@, "[Dave_Thaler]"@, SchemeStatus::Provisional),
        Scheme::Reload => ("reload"@, "reload"@, "[RFC6940]"@, SchemeStatus::Permanent),
        Scheme::Resource => ("resource"@, "resource"@, "[Dave_Thaler]"@, SchemeStatus::Provisional),
        Scheme::Res => ("res"@, "res"@, "[Alexey_Melnikov]"@, SchemeStatus::Provisional),
        Scheme::Rmi => ("rmi"@, "rmi"@, "[Dave_Thaler]"@, SchemeStatus::Provisional),
        Scheme::Rsync => ("rsync"@, "rsync"@, "[RFC5781]"@, SchemeStatus::Provisional),
        Scheme::Rtmfp => ("rtmfp"@, "rtmfp"@, "[RFC7425]"@, SchemeStatus::Provisional),
        Scheme::Rtmp => ("rtmp"@, "rtmp"@, "[Dave_Thaler]"@, SchemeStatus::Provisional),
        Scheme::Rtsp => ("rtsp"@, "Real-time Streaming Protocol (RTSP)"@, "[RFC2326][RFC-ietf-mmusic-rfc2326bis-40]"@, SchemeStatus::Permanent),
        Scheme::Rtsps => ("rtsps"@, "Real-time Streaming Protocol (RTSP) over TLS"@, "[RFC2326][RFC-ietf-mmusic-rfc2326bis-40]"@, SchemeStatus::Permanent),
        Scheme::Rtspu => ("rtspu"@, "Real-time Streaming Protocol (RTSP) over unreliable datagram transport"@, "[RFC2326]"@, SchemeStatus::Permanent),
        Scheme::Secondlife => ("secondlife"@, "query"@, "[Dave_Thaler]"@, SchemeStatus::Provisional),
        Scheme::Service => ("service"@, "service location"@, "[RFC2609]"@, SchemeStatus::Permanent),
        Scheme::Session => ("session"@, "session"@, "[RFC6787]"@, SchemeStatus::Permanent),
        Scheme::Sftp => ("sftp"@, "query"@, "[Dave_Thaler]"@, SchemeStatus::Provisional),
        Scheme::Sgn => ("sgn"@, "sgn"@, "[Dave_Thaler]"@, SchemeStatus::Provisional),
        Scheme::Shttp => ("shttp"@, "Secure Hypertext Transfer Protocol"@, "[RFC2660]"@, SchemeStatus::Permanent),
        Scheme::Sieve => ("sieve"@, "ManageSieve Protocol"@, "[RFC5804]"@, SchemeStatus::Permanent),
        Scheme::Sip => ("sip"@, "session initiation protocol"@, "[RFC3261]"@, SchemeStatus::Permanent),
        Scheme::Sips => ("sips"@, "secure session initiation protocol"@, "[RFC3261]"@, SchemeStatus::Permanent),
        Scheme::Skype => ("skype"@, "skype"@, "[Alexey_Melnikov]"@, SchemeStatus::Provisional),
        Scheme::Smb => ("smb"@, "smb"@, "[Dave_Thaler]"@, SchemeStatus::Provisional),
        Scheme::Sms => ("sms"@, "Short Message Service"@, "[RFC5724]"@, SchemeStatus::Permanent),
        Scheme::Smtp => ("smtp"@, "smtp"@, "[draft-melnikov-smime-msa-to-mda]"@, SchemeStatus::Provisional),
        Scheme::Snews => ("snews"@, "NNTP over SSL/TLS"@, "[RFC5538]"@, SchemeStatus::Historical),
        Scheme::Snmp => ("snmp"@, "Simple Network Management Protocol"@, "[RFC4088]"@, SchemeStatus::Permanent),
        Scheme::SoapBeep => ("soap.beep"@, "soap.beep"@, "[RFC4227]"@, SchemeStatus::Permanent),
        Scheme::SoapBeeps => ("soap.beeps"@, "soap.beeps"@, "[RFC4227]"@, SchemeStatus::Permanent),
        Scheme::Soldat => ("soldat"@, "soldat"@, "[Dave_Thaler]"@, SchemeStatus::Provisional),
        Scheme::Spotify => ("spotify"@, "spotify"@, "[Dave_Thaler]"@, SchemeStatus::Provisional),
        Scheme::Ssh => ("ssh"@, "ssh"@, "[Dave_Thaler]"@, SchemeStatus::Provisional),
        Scheme::Steam => ("steam"@, "steam"@, "[Dave_Thaler]"@, SchemeStatus::Provisional),
        Scheme::Stuns => ("stuns"@, "stuns"@, "[RFC7064]"@, SchemeStatus::Permanent),
        Scheme::Stun => ("stun"@, "stun"@, "[RFC7064]"@, SchemeStatus::Permanent),
        Scheme::Submit => ("submit"@, "submit"@, "[draft-melnikov-smime-msa-to-mda]"@, SchemeStatus::Provisional),
        Scheme::Svn => ("svn"@, "svn"@, "[Dave_Thaler]"@, SchemeStatus::Provisional),
        Scheme::Tag => ("tag"@, "tag"@, "[RFC4151]"@, SchemeStatus::Permanent),
        Scheme::Teamspeak => ("teamspeak"@, "teamspeak"@, "[Dave_Thaler]"@, SchemeStatus::Provisional),
        Scheme::Teliaeid => ("teliaeid"@, "teliaeid"@, "[Peter_Lewandowski]"@, SchemeStatus::Provisional),
        Scheme::Telnet => ("telnet"@, "Reference to interactive sessions"@, "[RFC4248]"@, SchemeStatus::Permanent),
        Scheme::Tel => ("tel"@, "telephone"@, "[RFC3966]"@, SchemeStatus::Permanent),
        Scheme::Tftp => ("tftp"@, "Trivial File Transfer Protocol"@, "[RFC3617]"@, SchemeStatus::Permanent),
        Scheme::Things => ("things"@, "things"@, "[Dave_Thaler]"@, SchemeStatus::Provisional),
        Scheme::ThisMessage => ("thismessage"@, "multipart/related relative reference resolution"@, "[RFC2557]"@, SchemeStatus::Permanent),
        Scheme::Tip => ("tip"@, "Transaction Internet Protocol"@, "[RFC2371]"@, SchemeStatus::Permanent),
        Scheme::Tn3270 => ("tn3270"@, "Interactive 3270 emulation sessions"@, "[RFC6270]"@, SchemeStatus::Permanent),
        Scheme::Turns => ("turns"@, "turns"@, "[RFC7065]"@, SchemeStatus::Permanent),
        Scheme::Turn => ("turn"@, "turn"@, "[RFC7065]"@, SchemeStatus::Permanent),
        Scheme::Tv => ("tv"@, "TV Broadcasts"@, "[RFC2838]"@, SchemeStatus::Permanent),
        Scheme::Udp => ("udp"@, "udp"@, "[Dave_Thaler]"@, SchemeStatus::Provisional),
        Scheme::Unreal => ("unreal"@, "unreal"@, "[Dave_Thaler]"@, SchemeStatus::Provisional),
        Scheme::Urn => ("urn"@, "Uniform Resource Names"@, "[RFC2141][IANA registry urn-namespaces]"@, SchemeStatus::Permanent),
        Scheme::Ut2004 => ("ut2004"@, "ut2004"@, "[Dave_Thaler]"@, SchemeStatus::Provisional),
        Scheme::Vemmi => ("vemmi"@, "versatile multimedia interface"@, "[RFC2122]"@, SchemeStatus::Permanent),
        Scheme::Ventrilo => ("ventrilo"@, "ventrilo"@, "[Dave_Thaler]"@, SchemeStatus::Provisional),
        Scheme::Videotex => ("videotex"@, "videotex"@, "[draft-mavrakis-videotex-url-spec][RFC2122][RFC3986]"@, SchemeStatus::Historical),
        Scheme::ViewSource => ("view-source"@, "view-source"@, "[Mykyta_Yevstifeyev]"@, SchemeStatus::Provisional),
        Scheme::Wais => ("wais"@, "Wide Area Information Servers"@, "[RFC4156]"@, SchemeStatus::Historical),
        Scheme::Webcal => ("webcal"@, "webcal"@, "[Dave_Thaler]"@, SchemeStatus::Provisional),
        Scheme::Wss => ("wss"@, "Encrypted WebSocket connections"@, "[RFC6455]"@, SchemeStatus::Permanent),
        Scheme::Ws => ("ws"@, "WebSocket connections"@, "[RFC6455]"@, SchemeStatus::Permanent),
        Scheme::Wtai => ("wtai"@, "wtai"@, "[Dave_Thaler]"@, SchemeStatus::Provisional),
        Scheme::Wyciwyg => ("wyciwyg"@, "wyciwyg"@, "[Dave_Thaler]"@, SchemeStatus::Provisional),
        Scheme::XconUserid => ("xcon-userid"@, "xcon-userid"@, "[RFC6501]"@, SchemeStatus::Permanent),
        Scheme::Xcon => ("xcon"@, "xcon"@, "[RFC6501]"@, SchemeStatus::Permanent),
        Scheme::Xfire => ("xfire"@, "xfire"@, "[Dave_Thaler]"@, SchemeStatus::Provisional),
        Scheme::XmlrpcBeeps => ("xmlrpc.beeps"@, "xmlrpc.beeps"@, "[RFC3529]"@, SchemeStatus::Permanent),
        Scheme::XmlrpcBeep => ("xmlrpc.beep"@, "xmlrpc.beep"@, "[RFC3529]"@, SchemeStatus::Permanent),
        Scheme::Xmpp => ("xmpp"@, "Extensible Messaging and Presence Protocol"@, "[RFC5122]"@, SchemeStatus::Permanent),
        Scheme::Xri => ("xri"@, "xri"@, "[Dave_Thaler]"@, SchemeStatus::Provisional),
        Scheme::Ymsgr => ("ymsgr"@, "ymsgr"@, "[Dave_Thaler]"@, SchemeStatus::Provisional),
        Scheme::Z3950r => ("z39.50r"@, "Z39.50 Retrieval"@, "[RFC2056]"@, SchemeStatus::Permanent),
        Scheme::Z3950s => ("z39.50s"@, "Z39.50 Session"@, "[RFC2056]"@, SchemeStatus::Permanent),
        Scheme::Z3950 => ("z39.50"@, "Z39.50 information access"@, "[RFC1738][RFC2056]"@, SchemeStatus::Historical),
        Scheme::Unknown(n) => (ascii_lower(n@), ""@, ""@, SchemeStatus::Unregistered),
    }
}

/// The canonical lowercase string form of a scheme.
pub open spec fn canonical_name_of(s: Scheme) -> Seq<char> {
    registry_entry(s).0
}

/// The human-readable description of a scheme; empty for `Unknown`.
pub open spec fn description_of(s: Scheme) -> Seq<char> {
    registry_entry(s).1
}

/// The normative reference of a scheme; empty for `Unknown`.
pub open spec fn reference_of(s: Scheme) -> Seq<char> {
    registry_entry(s).2
}

/// The registration status of a scheme; `Unregistered` for `Unknown`.
pub open spec fn status_of(s: Scheme) -> SchemeStatus {
    registry_entry(s).3
}

/// Table lookup over the entries whose names start with `a` through `b`;
/// `l` must already be lowercase to match.
pub open spec fn lookup_a_b(l: Seq<char>) -> Option<Scheme> {
    if l == "aaa"@ {
        Some(Scheme::Aaa)
    } else if l == "aaas"@ {
        Some(Scheme::Aaas)
    } else if l == "about"@ {
        Some(Scheme::About)
    } else if l == "acap"@ {
        Some(Scheme::Acap)
    } else if l == "acct"@ {
        Some(Scheme::Acct)
    } else if l == "acr"@ {
        Some(Scheme::Acr)
    } else if l == "adiumxtra"@ {
        Some(Scheme::Adiumxtra)
    } else if l == "afp"@ {
        Some(Scheme::Afp)
    } else if l == "afs"@ {
        Some(Scheme::Afs)
    } else if l == "aim"@ {
        Some(Scheme::Aim)
    } else if l == "apt"@ {
        Some(Scheme::Apt)
    } else if l == "attachment"@ {
        Some(Scheme::Attachment)
    } else if l == "aw"@ {
        Some(Scheme::Aw)
    } else if l == "barion"@ {
        Some(Scheme::Barion)
    } else if l == "beshare"@ {
        Some(Scheme::Beshare)
    } else if l == "bitcoin"@ {
        Some(Scheme::Bitcoin)
    } else if l == "bolo"@ {
        Some(Scheme::Bolo)
    } else {
        None
    }
}

/// Table lookup over the entries whose names start with `c` through `e`;
/// `l` must already be lowercase to match.
pub open spec fn lookup_c_e(l: Seq<char>) -> Option<Scheme> {
    if l == "callto"@ {
        Some(Scheme::Callto)
    } else if l == "cap"@ {
        Some(Scheme::Cap)
    } else if l == "chrome"@ {
        Some(Scheme::Chrome)
    } else if l == "chrome-extension"@ {
        Some(Scheme::ChromeExtension)
    } else if l == "cid"@ {
        Some(Scheme::Cid)
    } else if l == "coap"@ {
        Some(Scheme::Coap)
    } else if l == "coaps"@ {
        Some(Scheme::Coaps)
    } else if l == "com-eventbrite-attendee"@ {
        Some(Scheme::ComEventbriteAttendee)
    } else if l == "content"@ {
        Some(Scheme::Content)
    } else if l == "crid"@ {
        Some(Scheme::Crid)
    } else if l == "cvs"@ {
        Some(Scheme::Cvs)
    } else if l == "data"@ {
        Some(Scheme::Data)
    } else if l == "dav"@ {
        Some(Scheme::Dav)
    } else if l == "dict"@ {
        Some(Scheme::Dict)
    } else if l == "dlna-playcontainer"@ {
        Some(Scheme::DlnaPlaycontanier)
    } else if l == "dlna-playsingle"@ {
        Some(Scheme::DlnaPlaysingle)
    } else if l == "dns"@ {
        Some(Scheme::Dns)
    } else if l == "dtn"@ {
        Some(Scheme::Dtn)
    } else if l == "dvb"@ {
        Some(Scheme::Dvb)
    } else if l == "ed2k"@ {
        Some(Scheme::Ed2k)
    } else {
        None
    }
}

/// Table lookup over the entries whose names start with `f` through `h`;
/// `l` must already be lowercase to match.
pub open spec fn lookup_f_h(l: Seq<char>) -> Option<Scheme> {
    if l == "facetime"@ {
        Some(Scheme::Facetime)
    } else if l == "fax"@ {
        Some(Scheme::Fax)
    } else if l == "feed"@ {
        Some(Scheme::Feed)
    } else if l == "feedready"@ {
        Some(Scheme::Feedready)
    } else if l == "file"@ {
        Some(Scheme::File)
    } else if l == "finger"@ {
        Some(Scheme::Finger)
    } else if l == "fish"@ {
        Some(Scheme::Fish)
    } else if l == "ftp"@ {
        Some(Scheme::Ftp)
    } else if l == "geo"@ {
        Some(Scheme::Geo)
    } else if l == "gg"@ {
        Some(Scheme::Gg)
    } else if l == "git"@ {
        Some(Scheme::Git)
    } else if l == "gizmoproject"@ {
        Some(Scheme::Gizmoproject)
    } else if l == "go"@ {
        Some(Scheme::Go)
    } else if l == "gopher"@ {
        Some(Scheme::Gopher)
    } else if l == "gtalk"@ {
        Some(Scheme::Gtalk)
    } else if l == "h323"@ {
        Some(Scheme::H323)
    } else if l == "ham"@ {
        Some(Scheme::Ham)
    } else if l == "hcp"@ {
        Some(Scheme::Hcp)
    } else if l == "http"@ {
        Some(Scheme::Http)
    } else if l == "https"@ {
        Some(Scheme::Https)
    } else {
        None
    }
}

/// Table lookup over the entries whose names start with `i` through `k`;
/// `l` must already be lowercase to match.
pub open spec fn lookup_i_k(l: Seq<char>) -> Option<Scheme> {
    if l == "iax"@ {
        Some(Scheme::Iax)
    } else if l == "icap"@ {
        Some(Scheme::Icap)
    } else if l == "icon"@ {
        Some(Scheme::Icon)
    } else if l == "imap"@ {
        Some(Scheme::Imap)
    } else if l == "im"@ {
        Some(Scheme::Im)
    } else if l == "info"@ {
        Some(Scheme::Info)
    } else if l == "ipn"@ {
        Some(Scheme::Ipn)
    } else if l == "ipp"@ {
        Some(Scheme::Ipp)
    } else if l == "ipps"@ {
        Some(Scheme::Ipps)
    } else if l == "irc6"@ {
        Some(Scheme::Irc6)
    } else if l == "irc"@ {
        Some(Scheme::Irc)
    } else if l == "ircs"@ {
        Some(Scheme::Ircs)
    } else if l == "iris.beep"@ {
        Some(Scheme::IrisBeep)
    } else if l == "iris"@ {
        Some(Scheme::Iris)
    } else if l == "iris.lwz"@ {
        Some(Scheme::IrisLwz)
    } else if l == "iris.xpc"@ {
        Some(Scheme::IrisXpc)
    } else if l == "iris.xpcs"@ {
        Some(Scheme::IrisXpcs)
    } else if l == "itms"@ {
        Some(Scheme::Itms)
    } else if l == "jabber"@ {
        Some(Scheme::Jabber)
    } else if l == "jar"@ {
        Some(Scheme::Jar)
    } else if l == "jms"@ {
        Some(Scheme::Jms)
    } else if l == "keyparc"@ {
        Some(Scheme::Keyparc)
    } else {
        None
    }
}

/// Table lookup over the entries whose names start with `l` through `m`;
/// `l` must already be lowercase to match.
pub open spec fn lookup_l_m(l: Seq<char>) -> Option<Scheme> {
    if l == "lastfm"@ {
        Some(Scheme::Lastfm)
    } else if l == "ldap"@ {
        Some(Scheme::Ldap)
    } else if l == "ldaps"@ {
        Some(Scheme::Ldaps)
    } else if l == "magnet"@ {
        Some(Scheme::Magnet)
    } else if l == "mailserver"@ {
        Some(Scheme::Mailserver)
    } else if l == "mailto"@ {
        Some(Scheme::Mailto)
    } else if l == "maps"@ {
        Some(Scheme::Maps)
    } else if l == "market"@ {
        Some(Scheme::Market)
    } else if l == "message"@ {
        Some(Scheme::Message)
    } else if l == "mid"@ {
        Some(Scheme::Mid)
    } else if l == "mms"@ {
        Some(Scheme::Mms)
    } else if l == "modem"@ {
        Some(Scheme::Modem)
    } else if l == "ms-help"@ {
        Some(Scheme::MsHelp)
    } else if l == "msnim"@ {
        Some(Scheme::Msnim)
    } else if l == "msrp"@ {
        Some(Scheme::Msrp)
    } else if l == "msrps"@ {
        Some(Scheme::Msrps)
    } else if l == "ms-settings-power"@ {
        Some(Scheme::MsSettingsPower)
    } else if l == "mtqp"@ {
        Some(Scheme::Mtqp)
    } else if l == "mumble"@ {
        Some(Scheme::Mumble)
    } else if l == "mupdate"@ {
        Some(Scheme::Mupdate)
    } else if l == "mvn"@ {
        Some(Scheme::Mvn)
    } else if l == "mysql"@ {
        Some(Scheme::Mysql)
    } else {
        None
    }
}

/// Table lookup over the entries whose names start with `n` through `q`;
/// `l` must already be lowercase to match.
pub open spec fn lookup_n_q(l: Seq<char>) -> Option<Scheme> {
    if l == "news"@ {
        Some(Scheme::News)
    } else if l == "nfs"@ {
        Some(Scheme::Nfs)
    } else if l == "nih"@ {
        Some(Scheme::Nih)
    } else if l == "ni"@ {
        Some(Scheme::Ni)
    } else if l == "nntp"@ {
        Some(Scheme::Nntp)
    } else if l == "notes"@ {
        Some(Scheme::Notes)
    } else if l == "oid"@ {
        Some(Scheme::Oid)
    } else if l == "opaquelocktoken"@ {
        Some(Scheme::Opaquelocktoken)
    } else if l == "pack"@ {
        Some(Scheme::Pack)
    } else if l == "palm"@ {
        Some(Scheme::Palm)
    } else if l == "paparazzi"@ {
        Some(Scheme::Paparazzi)
    } else if l == "pkcs11"@ {
        Some(Scheme::Pkcs11)
    } else if l == "platform"@ {
        Some(Scheme::Platform)
    } else if l == "pop"@ {
        Some(Scheme::Pop)
    } else if l == "postgres"@ {
        Some(Scheme::Postgres)
    } else if l == "postgresql"@ {
        Some(Scheme::Postgresql)
    } else if l == "pres"@ {
        Some(Scheme::Pres)
    } else if l == "prospero"@ {
        Some(Scheme::Prospero)
    } else if l == "proxy"@ {
        Some(Scheme::Proxy)
    } else if l == "psyc"@ {
        Some(Scheme::Psyc)
    } else if l == "query"@ {
        Some(Scheme::Query)
    } else {
        None
    }
}

/// Table lookup over the entries whose names start with `r`;
/// `l` must already be lowercase to match.
pub open spec fn lookup_r(l: Seq<char>) -> Option<Scheme> {
    if l == "reload"@ {
        Some(Scheme::Reload)
    } else if l == "resource"@ {
        Some(Scheme::Resource)
    } else if l == "res"@ {
        Some(Scheme::Res)
    } else if l == "rmi"@ {
        Some(Scheme::Rmi)
    } else if l == "rsync"@ {
        Some(Scheme::Rsync)
    } else if l == "rtmfp"@ {
        Some(Scheme::Rtmfp)
    } else if l == "rtmp"@ {
        Some(Scheme::Rtmp)
    } else if l == "rtsp"@ {
        Some(Scheme::Rtsp)
    } else if l == "rtsps"@ {
        Some(Scheme::Rtsps)
    } else if l == "rtspu"@ {
        Some(Scheme::Rtspu)
    } else {
        None
    }
}

/// Table lookup over the entries whose names start with `s`;
/// `l` must already be lowercase to match.
pub open spec fn lookup_s(l: Seq<char>) -> Option<Scheme> {
    if l == "secondlife"@ {
        Some(Scheme::Secondlife)
    } else if l == "service"@ {
        Some(Scheme::Service)
    } else if l == "session"@ {
        Some(Scheme::Session)
    } else if l == "sftp"@ {
        Some(Scheme::Sftp)
    } else if l == "sgn"@ {
        Some(Scheme::Sgn)
    } else if l == "shttp"@ {
        Some(Scheme::Shttp)
    } else if l == "sieve"@ {
        Some(Scheme::Sieve)
    } else if l == "sip"@ {
        Some(Scheme::Sip)
    } else if l == "sips"@ {
        Some(Scheme::Sips)
    } else if l == "skype"@ {
        Some(Scheme::Skype)
    } else if l == "smb"@ {
        Some(Scheme::Smb)
    } else if l == "sms"@ {
        Some(Scheme::Sms)
    } else if l == "smtp"@ {
        Some(Scheme::Smtp)
    } else if l == "snews"@ {
        Some(Scheme::Snews)
    } else if l == "snmp"@ {
        Some(Scheme::Snmp)
    } else if l == "soap.beep"@ {
        Some(Scheme::SoapBeep)
    } else if l == "soap.beeps"@ {
        Some(Scheme::SoapBeeps)
    } else if l == "soldat"@ {
        Some(Scheme::Soldat)
    } else if l == "spotify"@ {
        Some(Scheme::Spotify)
    } else if l == "ssh"@ {
        Some(Scheme::Ssh)
    } else if l == "steam"@ {
        Some(Scheme::Steam)
    } else if l == "stuns"@ {
        Some(Scheme::Stuns)
    } else if l == "stun"@ {
        Some(Scheme::Stun)
    } else if l == "submit"@ {
        Some(Scheme::Submit)
    } else if l == "svn"@ {
        Some(Scheme::Svn)
    } else {
        None
    }
}

/// Table lookup over the entries whose names start with `t` through `v`;
/// `l` must already be lowercase to match.
pub open spec fn lookup_t_v(l: Seq<char>) -> Option<Scheme> {
    if l == "tag"@ {
        Some(Scheme::Tag)
    } else if l == "teamspeak"@ {
        Some(Scheme::Teamspeak)
    } else if l == "teliaeid"@ {
        Some(Scheme::Teliaeid)
    } else if l == "telnet"@ {
        Some(Scheme::Telnet)
    } else if l == "tel"@ {
        Some(Scheme::Tel)
    } else if l == "tftp"@ {
        Some(Scheme::Tftp)
    } else if l == "things"@ {
        Some(Scheme::Things)
    } else if l == "thismessage"@ {
        Some(Scheme::ThisMessage)
    } else if l == "tip"@ {
        Some(Scheme::Tip)
    } else if l == "tn3270"@ {
        Some(Scheme::Tn3270)
    } else if l == "turns"@ {
        Some(Scheme::Turns)
    } else if l == "turn"@ {
        Some(Scheme::Turn)
    } else if l == "tv"@ {
        Some(Scheme::Tv)
    } else if l == "udp"@ {
        Some(Scheme::Udp)
    } else if l == "unreal"@ {
        Some(Scheme::Unreal)
    } else if l == "urn"@ {
        Some(Scheme::Urn)
    } else if l == "ut2004"@ {
        Some(Scheme::Ut2004)
    } else if l == "vemmi"@ {
        Some(Scheme::Vemmi)
    } else if l == "ventrilo"@ {
        Some(Scheme::Ventrilo)
    } else if l == "videotex"@ {
        Some(Scheme::Videotex)
    } else if l == "view-source"@ {
        Some(Scheme::ViewSource)
    } else {
        None
    }
}

/// Table lookup over the entries whose names start with `w` through `z`;
/// `l` must already be lowercase to match.
pub open spec fn lookup_w_z(l: Seq<char>) -> Option<Scheme> {
    if l == "wais"@ {
        Some(Scheme::Wais)
    } else if l == "webcal"@ {
        Some(Scheme::Webcal)
    } else if l == "wss"@ {
        Some(Scheme::Wss)
    } else if l == "ws"@ {
        Some(Scheme::Ws)
    } else if l == "wtai"@ {
        Some(Scheme::Wtai)
    } else if l == "wyciwyg"@ {
        Some(Scheme::Wyciwyg)
    } else if l == "xcon-userid"@ {
        Some(Scheme::XconUserid)
    } else if l == "xcon"@ {
        Some(Scheme::Xcon)
    } else if l == "xfire"@ {
        Some(Scheme::Xfire)
    } else if l == "xmlrpc.beeps"@ {
        Some(Scheme::XmlrpcBeeps)
    } else if l == "xmlrpc.beep"@ {
        Some(Scheme::XmlrpcBeep)
    } else if l == "xmpp"@ {
        Some(Scheme::Xmpp)
    } else if l == "xri"@ {
        Some(Scheme::Xri)
    } else if l == "ymsgr"@ {
        Some(Scheme::Ymsgr)
    } else if l == "z39.50r"@ {
        Some(Scheme::Z3950r)
    } else if l == "z39.50s"@ {
        Some(Scheme::Z3950s)
    } else if l == "z39.50"@ {
        Some(Scheme::Z3950)
    } else {
        None
    }
}

/// Computes `lookup_a_b` on the lowercase form of `name`.
fn resolve_a_b(name: &str) -> (r: Option<Scheme>)
    ensures
        r == lookup_a_b(ascii_lower(name@)),
{
    if token_matches(name, "aaa") {
        Some(Scheme::Aaa)
    } else if token_matches(name, "aaas") {
        Some(Scheme::Aaas)
    } else if token_matches(name, "about") {
        Some(Scheme::About)
    } else if token_matches(name, "acap") {
        Some(Scheme::Acap)
    } else if token_matches(name, "acct") {
        Some(Scheme::Acct)
    } else if token_matches(name, "acr") {
        Some(Scheme::Acr)
    } else if token_matches(name, "adiumxtra") {
        Some(Scheme::Adiumxtra)
    } else if token_matches(name, "afp") {
        Some(Scheme::Afp)
    } else if token_matches(name, "afs") {
        Some(Scheme::Afs)
    } else if token_matches(name, "aim") {
        Some(Scheme::Aim)
    } else if token_matches(name, "apt") {
        Some(Scheme::Apt)
    } else if token_matches(name, "attachment") {
        Some(Scheme::Attachment)
    } else if token_matches(name, "aw") {
        Some(Scheme::Aw)
    } else if token_matches(name, "barion") {
        Some(Scheme::Barion)
    } else if token_matches(name, "beshare") {
        Some(Scheme::Beshare)
    } else if token_matches(name, "bitcoin") {
        Some(Scheme::Bitcoin)
    } else if token_matches(name, "bolo") {
        Some(Scheme::Bolo)
    } else {
        None
    }
}

/// Computes `lookup_c_e` on the lowercase form of `name`.
fn resolve_c_e(name: &str) -> (r: Option<Scheme>)
    ensures
        r == lookup_c_e(ascii_lower(name@)),
{
    if token_matches(name, "callto") {
        Some(Scheme::Callto)
    } else if token_matches(name, "cap") {
        Some(Scheme::Cap)
    } else if token_matches(name, "chrome") {
        Some(Scheme::Chrome)
    } else if token_matches(name, "chrome-extension") {
        Some(Scheme::ChromeExtension)
    } else if token_matches(name, "cid") {
        Some(Scheme::Cid)
    } else if token_matches(name, "coap") {
        Some(Scheme::Coap)
    } else if token_matches(name, "coaps") {
        Some(Scheme::Coaps)
    } else if token_matches(name, "com-eventbrite-attendee") {
        Some(Scheme::ComEventbriteAttendee)
    } else if token_matches(name, "content") {
        Some(Scheme::Content)
    } else if token_matches(name, "crid") {
        Some(Scheme::Crid)
    } else if token_matches(name, "cvs") {
        Some(Scheme::Cvs)
    } else if token_matches(name, "data") {
        Some(Scheme::Data)
    } else if token_matches(name, "dav") {
        Some(Scheme::Dav)
    } else if token_matches(name, "dict") {
        Some(Scheme::Dict)
    } else if token_matches(name, "dlna-playcontainer") {
        Some(Scheme::DlnaPlaycontanier)
    } else if token_matches(name, "dlna-playsingle") {
        Some(Scheme::DlnaPlaysingle)
    } else if token_matches(name, "dns") {
        Some(Scheme::Dns)
    } else if token_matches(name, "dtn") {
        Some(Scheme::Dtn)
    } else if token_matches(name, "dvb") {
        Some(Scheme::Dvb)
    } else if token_matches(name, "ed2k") {
        Some(Scheme::Ed2k)
    } else {
        None
    }
}

/// Computes `lookup_f_h` on the lowercase form of `name`.
fn resolve_f_h(name: &str) -> (r: Option<Scheme>)
    ensures
        r == lookup_f_h(ascii_lower(name@)),
{
    if token_matches(name, "facetime") {
        Some(Scheme::Facetime)
    } else if token_matches(name, "fax") {
        Some(Scheme::Fax)
    } else if token_matches(name, "feed") {
        Some(Scheme::Feed)
    } else if token_matches(name, "feedready") {
        Some(Scheme::Feedready)
    } else if token_matches(name, "file") {
        Some(Scheme::File)
    } else if token_matches(name, "finger") {
        Some(Scheme::Finger)
    } else if token_matches(name, "fish") {
        Some(Scheme::Fish)
    } else if token_matches(name, "ftp") {
        Some(Scheme::Ftp)
    } else if token_matches(name, "geo") {
        Some(Scheme::Geo)
    } else if token_matches(name, "gg") {
        Some(Scheme::Gg)
    } else if token_matches(name, "git") {
        Some(Scheme::Git)
    } else if token_matches(name, "gizmoproject") {
        Some(Scheme::Gizmoproject)
    } else if token_matches(name, "go") {
        Some(Scheme::Go)
    } else if token_matches(name, "gopher") {
        Some(Scheme::Gopher)
    } else if token_matches(name, "gtalk") {
        Some(Scheme::Gtalk)
    } else if token_matches(name, "h323") {
        Some(Scheme::H323)
    } else if token_matches(name, "ham") {
        Some(Scheme::Ham)
    } else if token_matches(name, "hcp") {
        Some(Scheme::Hcp)
    } else if token_matches(name, "http") {
        Some(Scheme::Http)
    } else if token_matches(name, "https") {
        Some(Scheme::Https)
    } else {
        None
    }
}

/// Computes `lookup_i_k` on the lowercase form of `name`.
fn resolve_i_k(name: &str) -> (r: Option<Scheme>)
    ensures
        r == lookup_i_k(ascii_lower(name@)),
{
    if token_matches(name, "iax") {
        Some(Scheme::Iax)
    } else if token_matches(name, "icap") {
        Some(Scheme::Icap)
    } else if token_matches(name, "icon") {
        Some(Scheme::Icon)
    } else if token_matches(name, "imap") {
        Some(Scheme::Imap)
    } else if token_matches(name, "im") {
        Some(Scheme::Im)
    } else if token_matches(name, "info") {
        Some(Scheme::Info)
    } else if token_matches(name, "ipn") {
        Some(Scheme::Ipn)
    } else if token_matches(name, "ipp") {
        Some(Scheme::Ipp)
    } else if token_matches(name, "ipps") {
        Some(Scheme::Ipps)
    } else if token_matches(name, "irc6") {
        Some(Scheme::Irc6)
    } else if token_matches(name, "irc") {
        Some(Scheme::Irc)
    } else if token_matches(name, "ircs") {
        Some(Scheme::Ircs)
    } else if token_matches(name, "iris.beep") {
        Some(Scheme::IrisBeep)
    } else if token_matches(name, "iris") {
        Some(Scheme::Iris)
    } else if token_matches(name, "iris.lwz") {
        Some(Scheme::IrisLwz)
    } else if token_matches(name, "iris.xpc") {
        Some(Scheme::IrisXpc)
    } else if token_matches(name, "iris.xpcs") {
        Some(Scheme::IrisXpcs)
    } else if token_matches(name, "itms") {
        Some(Scheme::Itms)
    } else if token_matches(name, "jabber") {
        Some(Scheme::Jabber)
    } else if token_matches(name, "jar") {
        Some(Scheme::Jar)
    } else if token_matches(name, "jms") {
        Some(Scheme::Jms)
    } else if token_matches(name, "keyparc") {
        Some(Scheme::Keyparc)
    } else {
        None
    }
}

/// Computes `lookup_l_m` on the lowercase form of `name`.
fn resolve_l_m(name: &str) -> (r: Option<Scheme>)
    ensures
        r == lookup_l_m(ascii_lower(name@)),
{
    if token_matches(name, "lastfm") {
        Some(Scheme::Lastfm)
    } else if token_matches(name, "ldap") {
        Some(Scheme::Ldap)
    } else if token_matches(name, "ldaps") {
        Some(Scheme::Ldaps)
    } else if token_matches(name, "magnet") {
        Some(Scheme::Magnet)
    } else if token_matches(name, "mailserver") {
        Some(Scheme::Mailserver)
    } else if token_matches(name, "mailto") {
        Some(Scheme::Mailto)
    } else if token_matches(name, "maps") {
        Some(Scheme::Maps)
    } else if token_matches(name, "market") {
        Some(Scheme::Market)
    } else if token_matches(name, "message") {
        Some(Scheme::Message)
    } else if token_matches(name, "mid") {
        Some(Scheme::Mid)
    } else if token_matches(name, "mms") {
        Some(Scheme::Mms)
    } else if token_matches(name, "modem") {
        Some(Scheme::Modem)
    } else if token_matches(name, "ms-help") {
        Some(Scheme::MsHelp)
    } else if token_matches(name, "msnim") {
        Some(Scheme::Msnim)
    } else if token_matches(name, "msrp") {
        Some(Scheme::Msrp)
    } else if token_matches(name, "msrps") {
        Some(Scheme::Msrps)
    } else if token_matches(name, "ms-settings-power") {
        Some(Scheme::MsSettingsPower)
    } else if token_matches(name, "mtqp") {
        Some(Scheme::Mtqp)
    } else if token_matches(name, "mumble") {
        Some(Scheme::Mumble)
    } else if token_matches(name, "mupdate") {
        Some(Scheme::Mupdate)
    } else if token_matches(name, "mvn") {
        Some(Scheme::Mvn)
    } else if token_matches(name, "mysql") {
        Some(Scheme::Mysql)
    } else {
        None
    }
}

/// Computes `lookup_n_q` on the lowercase form of `name`.
fn resolve_n_q(name: &str) -> (r: Option<Scheme>)
    ensures
        r == lookup_n_q(ascii_lower(name@)),
{
    if token_matches(name, "news") {
        Some(Scheme::News)
    } else if token_matches(name, "nfs") {
        Some(Scheme::Nfs)
    } else if token_matches(name, "nih") {
        Some(Scheme::Nih)
    } else if token_matches(name, "ni") {
        Some(Scheme::Ni)
    } else if token_matches(name, "nntp") {
        Some(Scheme::Nntp)
    } else if token_matches(name, "notes") {
        Some(Scheme::Notes)
    } else if token_matches(name, "oid") {
        Some(Scheme::Oid)
    } else if token_matches(name, "opaquelocktoken") {
        Some(Scheme::Opaquelocktoken)
    } else if token_matches(name, "pack") {
        Some(Scheme::Pack)
    } else if token_matches(name, "palm") {
        Some(Scheme::Palm)
    } else if token_matches(name, "paparazzi") {
        Some(Scheme::Paparazzi)
    } else if token_matches(name, "pkcs11") {
        Some(Scheme::Pkcs11)
    } else if token_matches(name, "platform") {
        Some(Scheme::Platform)
    } else if token_matches(name, "pop") {
        Some(Scheme::Pop)
    } else if token_matches(name, "postgres") {
        Some(Scheme::Postgres)
    } else if token_matches(name, "postgresql") {
        Some(Scheme::Postgresql)
    } else if token_matches(name, "pres") {
        Some(Scheme::Pres)
    } else if token_matches(name, "prospero") {
        Some(Scheme::Prospero)
    } else if token_matches(name, "proxy") {
        Some(Scheme::Proxy)
    } else if token_matches(name, "psyc") {
        Some(Scheme::Psyc)
    } else if token_matches(name, "query") {
        Some(Scheme::Query)
    } else {
        None
    }
}

/// Computes `lookup_r` on the lowercase form of `name`.
fn resolve_r(name: &str) -> (r: Option<Scheme>)
    ensures
        r == lookup_r(ascii_lower(name@)),
{
    if token_matches(name, "reload") {
        Some(Scheme::Reload)
    } else if token_matches(name, "resource") {
        Some(Scheme::Resource)
    } else if token_matches(name, "res") {
        Some(Scheme::Res)
    } else if token_matches(name, "rmi") {
        Some(Scheme::Rmi)
    } else if token_matches(name, "rsync") {
        Some(Scheme::Rsync)
    } else if token_matches(name, "rtmfp") {
        Some(Scheme::Rtmfp)
    } else if token_matches(name, "rtmp") {
        Some(Scheme::Rtmp)
    } else if token_matches(name, "rtsp") {
        Some(Scheme::Rtsp)
    } else if token_matches(name, "rtsps") {
        Some(Scheme::Rtsps)
    } else if token_matches(name, "rtspu") {
        Some(Scheme::Rtspu)
    } else {
        None
    }
}

/// Computes `lookup_s` on the lowercase form of `name`.
fn resolve_s(name: &str) -> (r: Option<Scheme>)
    ensures
        r == lookup_s(ascii_lower(name@)),
{
    if token_matches(name, "secondlife") {
        Some(Scheme::Secondlife)
    } else if token_matches(name, "service") {
        Some(Scheme::Service)
    } else if token_matches(name, "session") {
        Some(Scheme::Session)
    } else if token_matches(name, "sftp") {
        Some(Scheme::Sftp)
    } else if token_matches(name, "sgn") {
        Some(Scheme::Sgn)
    } else if token_matches(name, "shttp") {
        Some(Scheme::Shttp)
    } else if token_matches(name, "sieve") {
        Some(Scheme::Sieve)
    } else if token_matches(name, "sip") {
        Some(Scheme::Sip)
    } else if token_matches(name, "sips") {
        Some(Scheme::Sips)
    } else if token_matches(name, "skype") {
        Some(Scheme::Skype)
    } else if token_matches(name, "smb") {
        Some(Scheme::Smb)
    } else if token_matches(name, "sms") {
        Some(Scheme::Sms)
    } else if token_matches(name, "smtp") {
        Some(Scheme::Smtp)
    } else if token_matches(name, "snews") {
        Some(Scheme::Snews)
    } else if token_matches(name, "snmp") {
        Some(Scheme::Snmp)
    } else if token_matches(name, "soap.beep") {
        Some(Scheme::SoapBeep)
    } else if token_matches(name, "soap.beeps") {
        Some(Scheme::SoapBeeps)
    } else if token_matches(name, "soldat") {
        Some(Scheme::Soldat)
    } else if token_matches(name, "spotify") {
        Some(Scheme::Spotify)
    } else if token_matches(name, "ssh") {
        Some(Scheme::Ssh)
    } else if token_matches(name, "steam") {
        Some(Scheme::Steam)
    } else if token_matches(name, "stuns") {
        Some(Scheme::Stuns)
    } else if token_matches(name, "stun") {
        Some(Scheme::Stun)
    } else if token_matches(name, "submit") {
        Some(Scheme::Submit)
    } else if token_matches(name, "svn") {
        Some(Scheme::Svn)
    } else {
        None
    }
}

/// Computes `lookup_t_v` on the lowercase form of `name`.
fn resolve_t_v(name: &str) -> (r: Option<Scheme>)
    ensures
        r == lookup_t_v(ascii_lower(name@)),
{
    if token_matches(name, "tag") {
        Some(Scheme::Tag)
    } else if token_matches(name, "teamspeak") {
        Some(Scheme::Teamspeak)
    } else if token_matches(name, "teliaeid") {
        Some(Scheme::Teliaeid)
    } else if token_matches(name, "telnet") {
        Some(Scheme::Telnet)
    } else if token_matches(name, "tel") {
        Some(Scheme::Tel)
    } else if token_matches(name, "tftp") {
        Some(Scheme::Tftp)
    } else if token_matches(name, "things") {
        Some(Scheme::Things)
    } else if token_matches(name, "thismessage") {
        Some(Scheme::ThisMessage)
    } else if token_matches(name, "tip") {
        Some(Scheme::Tip)
    } else if token_matches(name, "tn3270") {
        Some(Scheme::Tn3270)
    } else if token_matches(name, "turns") {
        Some(Scheme::Turns)
    } else if token_matches(name, "turn") {
        Some(Scheme::Turn)
    } else if token_matches(name, "tv") {
        Some(Scheme::Tv)
    } else if token_matches(name, "udp") {
        Some(Scheme::Udp)
    } else if token_matches(name, "unreal") {
        Some(Scheme::Unreal)
    } else if token_matches(name, "urn") {
        Some(Scheme::Urn)
    } else if token_matches(name, "ut2004") {
        Some(Scheme::Ut2004)
    } else if token_matches(name, "vemmi") {
        Some(Scheme::Vemmi)
    } else if token_matches(name, "ventrilo") {
        Some(Scheme::Ventrilo)
    } else if token_matches(name, "videotex") {
        Some(Scheme::Videotex)
    } else if token_matches(name, "view-source") {
        Some(Scheme::ViewSource)
    } else {
        None
    }
}

/// Computes `lookup_w_z` on the lowercase form of `name`.
fn resolve_w_z(name: &str) -> (r: Option<Scheme>)
    ensures
        r == lookup_w_z(ascii_lower(name@)),
{
    if token_matches(name, "wais") {
        Some(Scheme::Wais)
    } else if token_matches(name, "webcal") {
        Some(Scheme::Webcal)
    } else if token_matches(name, "wss") {
        Some(Scheme::Wss)
    } else if token_matches(name, "ws") {
        Some(Scheme::Ws)
    } else if token_matches(name, "wtai") {
        Some(Scheme::Wtai)
    } else if token_matches(name, "wyciwyg") {
        Some(Scheme::Wyciwyg)
    } else if token_matches(name, "xcon-userid") {
        Some(Scheme::XconUserid)
    } else if token_matches(name, "xcon") {
        Some(Scheme::Xcon)
    } else if token_matches(name, "xfire") {
        Some(Scheme::Xfire)
    } else if token_matches(name, "xmlrpc.beeps") {
        Some(Scheme::XmlrpcBeeps)
    } else if token_matches(name, "xmlrpc.beep") {
        Some(Scheme::XmlrpcBeep)
    } else if token_matches(name, "xmpp") {
        Some(Scheme::Xmpp)
    } else if token_matches(name, "xri") {
        Some(Scheme::Xri)
    } else if token_matches(name, "ymsgr") {
        Some(Scheme::Ymsgr)
    } else if token_matches(name, "z39.50r") {
        Some(Scheme::Z3950r)
    } else if token_matches(name, "z39.50s") {
        Some(Scheme::Z3950s)
    } else if token_matches(name, "z39.50") {
        Some(Scheme::Z3950)
    } else {
        None
    }
}

/// Table lookup over the whole registry; `l` must already be lowercase
/// to match.
pub open spec fn lookup(l: Seq<char>) -> Option<Scheme> {
    if lookup_a_b(l) is Some {
        lookup_a_b(l)
    } else if lookup_c_e(l) is Some {
        lookup_c_e(l)
    } else if lookup_f_h(l) is Some {
        lookup_f_h(l)
    } else if lookup_i_k(l) is Some {
        lookup_i_k(l)
    } else if lookup_l_m(l) is Some {
        lookup_l_m(l)
    } else if lookup_n_q(l) is Some {
        lookup_n_q(l)
    } else if lookup_r(l) is Some {
        lookup_r(l)
    } else if lookup_s(l) is Some {
        lookup_s(l)
    } else if lookup_t_v(l) is Some {
        lookup_t_v(l)
    } else if lookup_w_z(l) is Some {
        lookup_w_z(l)
    } else {
        None
    }
}

/// Case-insensitive resolution of a scheme token against the registry:
/// the token is ASCII-lowercased and then looked up exactly.
pub open spec fn resolve_spec(name: Seq<char>) -> Option<Scheme> {
    lookup(ascii_lower(name))
}

/// A hit in `lookup_a_b` is a known scheme whose canonical name is
/// the looked-up key.
proof fn lemma_lookup_a_b_name(l: Seq<char>)
    ensures
        lookup_a_b(l) matches Some(s) ==> !(s is Unknown) && canonical_name_of(s) == l,
{
}

/// A hit in `lookup_c_e` is a known scheme whose canonical name is
/// the looked-up key.
proof fn lemma_lookup_c_e_name(l: Seq<char>)
    ensures
        lookup_c_e(l) matches Some(s) ==> !(s is Unknown) && canonical_name_of(s) == l,
{
}

/// A hit in `lookup_f_h` is a known scheme whose canonical name is
/// the looked-up key.
proof fn lemma_lookup_f_h_name(l: Seq<char>)
    ensures
        lookup_f_h(l) matches Some(s) ==> !(s is Unknown) && canonical_name_of(s) == l,
{
}

/// A hit in `lookup_i_k` is a known scheme whose canonical name is
/// the looked-up key.
proof fn lemma_lookup_i_k_name(l: Seq<char>)
    ensures
        lookup_i_k(l) matches Some(s) ==> !(s is Unknown) && canonical_name_of(s) == l,
{
}

/// A hit in `lookup_l_m` is a known scheme whose canonical name is
/// the looked-up key.
proof fn lemma_lookup_l_m_name(l: Seq<char>)
    ensures
        lookup_l_m(l) matches Some(s) ==> !(s is Unknown) && canonical_name_of(s) == l,
{
}

/// A hit in `lookup_n_q` is a known scheme whose canonical name is
/// the looked-up key.
proof fn lemma_lookup_n_q_name(l: Seq<char>)
    ensures
        lookup_n_q(l) matches Some(s) ==> !(s is Unknown) && canonical_name_of(s) == l,
{
}

/// A hit in `lookup_r` is a known scheme whose canonical name is
/// the looked-up key.
proof fn lemma_lookup_r_name(l: Seq<char>)
    ensures
        lookup_r(l) matches Some(s) ==> !(s is Unknown) && canonical_name_of(s) == l,
{
}

/// A hit in `lookup_s` is a known scheme whose canonical name is
/// the looked-up key.
proof fn lemma_lookup_s_name(l: Seq<char>)
    ensures
        lookup_s(l) matches Some(s) ==> !(s is Unknown) && canonical_name_of(s) == l,
{
}

/// A hit in `lookup_t_v` is a known scheme whose canonical name is
/// the looked-up key.
proof fn lemma_lookup_t_v_name(l: Seq<char>)
    ensures
        lookup_t_v(l) matches Some(s) ==> !(s is Unknown) && canonical_name_of(s) == l,
{
}

/// A hit in `lookup_w_z` is a known scheme whose canonical name is
/// the looked-up key.
proof fn lemma_lookup_w_z_name(l: Seq<char>)
    ensures
        lookup_w_z(l) matches Some(s) ==> !(s is Unknown) && canonical_name_of(s) == l,
{
}

/// Every key of `lookup_a_b` is a valid scheme token.
proof fn lemma_lookup_a_b_valid(l: Seq<char>)
    ensures
        lookup_a_b(l) is Some ==> is_valid_scheme_token(l),
{
    reveal_strlit("aaa");
    reveal_strlit("aaas");
    reveal_strlit("about");
    reveal_strlit("acap");
    reveal_strlit("acct");
    reveal_strlit("acr");
    reveal_strlit("adiumxtra");
    reveal_strlit("afp");
    reveal_strlit("afs");
    reveal_strlit("aim");
    reveal_strlit("apt");
    reveal_strlit("attachment");
    reveal_strlit("aw");
    reveal_strlit("barion");
    reveal_strlit("beshare");
    reveal_strlit("bitcoin");
    reveal_strlit("bolo");
    assert(is_valid_scheme_token("aaa"@));
    assert(is_valid_scheme_token("aaas"@));
    assert(is_valid_scheme_token("about"@));
    assert(is_valid_scheme_token("acap"@));
    assert(is_valid_scheme_token("acct"@));
    assert(is_valid_scheme_token("acr"@));
    assert(is_valid_scheme_token("adiumxtra"@));
    assert(is_valid_scheme_token("afp"@));
    assert(is_valid_scheme_token("afs"@));
    assert(is_valid_scheme_token("aim"@));
    assert(is_valid_scheme_token("apt"@));
    assert(is_valid_scheme_token("attachment"@));
    assert(is_valid_scheme_token("aw"@));
    assert(is_valid_scheme_token("barion"@));
    assert(is_valid_scheme_token("beshare"@));
    assert(is_valid_scheme_token("bitcoin"@));
    assert(is_valid_scheme_token("bolo"@));
}

/// Every key of `lookup_c_e` is a valid scheme token.
proof fn lemma_lookup_c_e_valid(l: Seq<char>)
    ensures
        lookup_c_e(l) is Some ==> is_valid_scheme_token(l),
{
    reveal_strlit("callto");
    reveal_strlit("cap");
    reveal_strlit("chrome");
    reveal_strlit("chrome-extension");
    reveal_strlit("cid");
    reveal_strlit("coap");
    reveal_strlit("coaps");
    reveal_strlit("com-eventbrite-attendee");
    reveal_strlit("content");
    reveal_strlit("crid");
    reveal_strlit("cvs");
    reveal_strlit("data");
    reveal_strlit("dav");
    reveal_strlit("dict");
    reveal_strlit("dlna-playcontainer");
    reveal_strlit("dlna-playsingle");
    reveal_strlit("dns");
    reveal_strlit("dtn");
    reveal_strlit("dvb");
    reveal_strlit("ed2k");
    assert(is_valid_scheme_token("callto"@));
    assert(is_valid_scheme_token("cap"@));
    assert(is_valid_scheme_token("chrome"@));
    assert(is_valid_scheme_token("chrome-extension"@));
    assert(is_valid_scheme_token("cid"@));
    assert(is_valid_scheme_token("coap"@));
    assert(is_valid_scheme_token("coaps"@));
    assert(is_valid_scheme_token("com-eventbrite-attendee"@));
    assert(is_valid_scheme_token("content"@));
    assert(is_valid_scheme_token("crid"@));
    assert(is_valid_scheme_token("cvs"@));
    assert(is_valid_scheme_token("data"@));
    assert(is_valid_scheme_token("dav"@));
    assert(is_valid_scheme_token("dict"@));
    assert(is_valid_scheme_token("dlna-playcontainer"@));
    assert(is_valid_scheme_token("dlna-playsingle"@));
    assert(is_valid_scheme_token("dns"@));
    assert(is_valid_scheme_token("dtn"@));
    assert(is_valid_scheme_token("dvb"@));
    assert(is_valid_scheme_token("ed2k"@));
}

/// Every key of `lookup_f_h` is a valid scheme token.
proof fn lemma_lookup_f_h_valid(l: Seq<char>)
    ensures
        lookup_f_h(l) is Some ==> is_valid_scheme_token(l),
{
    reveal_strlit("facetime");
    reveal_strlit("fax");
    reveal_strlit("feed");
    reveal_strlit("feedready");
    reveal_strlit("file");
    reveal_strlit("finger");
    reveal_strlit("fish");
    reveal_strlit("ftp");
    reveal_strlit("geo");
    reveal_strlit("gg");
    reveal_strlit("git");
    reveal_strlit("gizmoproject");
    reveal_strlit("go");
    reveal_strlit("gopher");
    reveal_strlit("gtalk");
    reveal_strlit("h323");
    reveal_strlit("ham");
    reveal_strlit("hcp");
    reveal_strlit("http");
    reveal_strlit("https");
    assert(is_valid_scheme_token("facetime"@));
    assert(is_valid_scheme_token("fax"@));
    assert(is_valid_scheme_token("feed"@));
    assert(is_valid_scheme_token("feedready"@));
    assert(is_valid_scheme_token("file"@));
    assert(is_valid_scheme_token("finger"@));
    assert(is_valid_scheme_token("fish"@));
    assert(is_valid_scheme_token("ftp"@));
    assert(is_valid_scheme_token("geo"@));
    assert(is_valid_scheme_token("gg"@));
    assert(is_valid_scheme_token("git"@));
    assert(is_valid_scheme_token("gizmoproject"@));
    assert(is_valid_scheme_token("go"@));
    assert(is_valid_scheme_token("gopher"@));
    assert(is_valid_scheme_token("gtalk"@));
    assert(is_valid_scheme_token("h323"@));
    assert(is_valid_scheme_token("ham"@));
    assert(is_valid_scheme_token("hcp"@));
    assert(is_valid_scheme_token("http"@));
    assert(is_valid_scheme_token("https"@));
}

/// Every key of `lookup_i_k` is a valid scheme token.
proof fn lemma_lookup_i_k_valid(l: Seq<char>)
    ensures
        lookup_i_k(l) is Some ==> is_valid_scheme_token(l),
{
    reveal_strlit("iax");
    reveal_strlit("icap");
    reveal_strlit("icon");
    reveal_strlit("imap");
    reveal_strlit("im");
    reveal_strlit("info");
    reveal_strlit("ipn");
    reveal_strlit("ipp");
    reveal_strlit("ipps");
    reveal_strlit("irc6");
    reveal_strlit("irc");
    reveal_strlit("ircs");
    reveal_strlit("iris.beep");
    reveal_strlit("iris");
    reveal_strlit("iris.lwz");
    reveal_strlit("iris.xpc");
    reveal_strlit("iris.xpcs");
    reveal_strlit("itms");
    reveal_strlit("jabber");
    reveal_strlit("jar");
    reveal_strlit("jms");
    reveal_strlit("keyparc");
    assert(is_valid_scheme_token("iax"@));
    assert(is_valid_scheme_token("icap"@));
    assert(is_valid_scheme_token("icon"@));
    assert(is_valid_scheme_token("imap"@));
    assert(is_valid_scheme_token("im"@));
    assert(is_valid_scheme_token("info"@));
    assert(is_valid_scheme_token("ipn"@));
    assert(is_valid_scheme_token("ipp"@));
    assert(is_valid_scheme_token("ipps"@));
    assert(is_valid_scheme_token("irc6"@));
    assert(is_valid_scheme_token("irc"@));
    assert(is_valid_scheme_token("ircs"@));
    assert(is_valid_scheme_token("iris.beep"@));
    assert(is_valid_scheme_token("iris"@));
    assert(is_valid_scheme_token("iris.lwz"@));
    assert(is_valid_scheme_token("iris.xpc"@));
    assert(is_valid_scheme_token("iris.xpcs"@));
    assert(is_valid_scheme_token("itms"@));
    assert(is_valid_scheme_token("jabber"@));
    assert(is_valid_scheme_token("jar"@));
    assert(is_valid_scheme_token("jms"@));
    assert(is_valid_scheme_token("keyparc"@));
}

/// Every key of `lookup_l_m` is a valid scheme token.
proof fn lemma_lookup_l_m_valid(l: Seq<char>)
    ensures
        lookup_l_m(l) is Some ==> is_valid_scheme_token(l),
{
    reveal_strlit("lastfm");
    reveal_strlit("ldap");
    reveal_strlit("ldaps");
    reveal_strlit("magnet");
    reveal_strlit("mailserver");
    reveal_strlit("mailto");
    reveal_strlit("maps");
    reveal_strlit("market");
    reveal_strlit("message");
    reveal_strlit("mid");
    reveal_strlit("mms");
    reveal_strlit("modem");
    reveal_strlit("ms-help");
    reveal_strlit("msnim");
    reveal_strlit("msrp");
    reveal_strlit("msrps");
    reveal_strlit("ms-settings-power");
    reveal_strlit("mtqp");
    reveal_strlit("mumble");
    reveal_strlit("mupdate");
    reveal_strlit("mvn");
    reveal_strlit("mysql");
    assert(is_valid_scheme_token("lastfm"@));
    assert(is_valid_scheme_token("ldap"@));
    assert(is_valid_scheme_token("ldaps"@));
    assert(is_valid_scheme_token("magnet"@));
    assert(is_valid_scheme_token("mailserver"@));
    assert(is_valid_scheme_token("mailto"@));
    assert(is_valid_scheme_token("maps"@));
    assert(is_valid_scheme_token("market"@));
    assert(is_valid_scheme_token("message"@));
    assert(is_valid_scheme_token("mid"@));
    assert(is_valid_scheme_token("mms"@));
    assert(is_valid_scheme_token("modem"@));
    assert(is_valid_scheme_token("ms-help"@));
    assert(is_valid_scheme_token("msnim"@));
    assert(is_valid_scheme_token("msrp"@));
    assert(is_valid_scheme_token("msrps"@));
    assert(is_valid_scheme_token("ms-settings-power"@));
    assert(is_valid_scheme_token("mtqp"@));
    assert(is_valid_scheme_token("mumble"@));
    assert(is_valid_scheme_token("mupdate"@));
    assert(is_valid_scheme_token("mvn"@));
    assert(is_valid_scheme_token("mysql"@));
}

/// Every key of `lookup_n_q` is a valid scheme token.
proof fn lemma_lookup_n_q_valid(l: Seq<char>)
    ensures
        lookup_n_q(l) is Some ==> is_valid_scheme_token(l),
{
    reveal_strlit("news");
    reveal_strlit("nfs");
    reveal_strlit("nih");
    reveal_strlit("ni");
    reveal_strlit("nntp");
    reveal_strlit("notes");
    reveal_strlit("oid");
    reveal_strlit("opaquelocktoken");
    reveal_strlit("pack");
    reveal_strlit("palm");
    reveal_strlit("paparazzi");
    reveal_strlit("pkcs11");
    reveal_strlit("platform");
    reveal_strlit("pop");
    reveal_strlit("postgres");
    reveal_strlit("postgresql");
    reveal_strlit("pres");
    reveal_strlit("prospero");
    reveal_strlit("proxy");
    reveal_strlit("psyc");
    reveal_strlit("query");
    assert(is_valid_scheme_token("news"@));
    assert(is_valid_scheme_token("nfs"@));
    assert(is_valid_scheme_token("nih"@));
    assert(is_valid_scheme_token("ni"@));
    assert(is_valid_scheme_token("nntp"@));
    assert(is_valid_scheme_token("notes"@));
    assert(is_valid_scheme_token("oid"@));
    assert(is_valid_scheme_token("opaquelocktoken"@));
    assert(is_valid_scheme_token("pack"@));
    assert(is_valid_scheme_token("palm"@));
    assert(is_valid_scheme_token("paparazzi"@));
    assert(is_valid_scheme_token("pkcs11"@));
    assert(is_valid_scheme_token("platform"@));
    assert(is_valid_scheme_token("pop"@));
    assert(is_valid_scheme_token("postgres"@));
    assert(is_valid_scheme_token("postgresql"@));
    assert(is_valid_scheme_token("pres"@));
    assert(is_valid_scheme_token("prospero"@));
    assert(is_valid_scheme_token("proxy"@));
    assert(is_valid_scheme_token("psyc"@));
    assert(is_valid_scheme_token("query"@));
}

/// Every key of `lookup_r` is a valid scheme token.
proof fn lemma_lookup_r_valid(l: Seq<char>)
    ensures
        lookup_r(l) is Some ==> is_valid_scheme_token(l),
{
    reveal_strlit("reload");
    reveal_strlit("resource");
    reveal_strlit("res");
    reveal_strlit("rmi");
    reveal_strlit("rsync");
    reveal_strlit("rtmfp");
    reveal_strlit("rtmp");
    reveal_strlit("rtsp");
    reveal_strlit("rtsps");
    reveal_strlit("rtspu");
    assert(is_valid_scheme_token("reload"@));
    assert(is_valid_scheme_token("resource"@));
    assert(is_valid_scheme_token("res"@));
    assert(is_valid_scheme_token("rmi"@));
    assert(is_valid_scheme_token("rsync"@));
    assert(is_valid_scheme_token("rtmfp"@));
    assert(is_valid_scheme_token("rtmp"@));
    assert(is_valid_scheme_token("rtsp"@));
    assert(is_valid_scheme_token("rtsps"@));
    assert(is_valid_scheme_token("rtspu"@));
}

/// Every key of `lookup_s` is a valid scheme token.
proof fn lemma_lookup_s_valid(l: Seq<char>)
    ensures
        lookup_s(l) is Some ==> is_valid_scheme_token(l),
{
    reveal_strlit("secondlife");
    reveal_strlit("service");
    reveal_strlit("session");
    reveal_strlit("sftp");
    reveal_strlit("sgn");
    reveal_strlit("shttp");
    reveal_strlit("sieve");
    reveal_strlit("sip");
    reveal_strlit("sips");
    reveal_strlit("skype");
    reveal_strlit("smb");
    reveal_strlit("sms");
    reveal_strlit("smtp");
    reveal_strlit("snews");
    reveal_strlit("snmp");
    reveal_strlit("soap.beep");
    reveal_strlit("soap.beeps");
    reveal_strlit("soldat");
    reveal_strlit("spotify");
    reveal_strlit("ssh");
    reveal_strlit("steam");
    reveal_strlit("stuns");
    reveal_strlit("stun");
    reveal_strlit("submit");
    reveal_strlit("svn");
    assert(is_valid_scheme_token("secondlife"@));
    assert(is_valid_scheme_token("service"@));
    assert(is_valid_scheme_token("session"@));
    assert(is_valid_scheme_token("sftp"@));
    assert(is_valid_scheme_token("sgn"@));
    assert(is_valid_scheme_token("shttp"@));
    assert(is_valid_scheme_token("sieve"@));
    assert(is_valid_scheme_token("sip"@));
    assert(is_valid_scheme_token("sips"@));
    assert(is_valid_scheme_token("skype"@));
    assert(is_valid_scheme_token("smb"@));
    assert(is_valid_scheme_token("sms"@));
    assert(is_valid_scheme_token("smtp"@));
    assert(is_valid_scheme_token("snews"@));
    assert(is_valid_scheme_token("snmp"@));
    assert(is_valid_scheme_token("soap.beep"@));
    assert(is_valid_scheme_token("soap.beeps"@));
    assert(is_valid_scheme_token("soldat"@));
    assert(is_valid_scheme_token("spotify"@));
    assert(is_valid_scheme_token("ssh"@));
    assert(is_valid_scheme_token("steam"@));
    assert(is_valid_scheme_token("stuns"@));
    assert(is_valid_scheme_token("stun"@));
    assert(is_valid_scheme_token("submit"@));
    assert(is_valid_scheme_token("svn"@));
}

/// Every key of `lookup_t_v` is a valid scheme token.
proof fn lemma_lookup_t_v_valid(l: Seq<char>)
    ensures
        lookup_t_v(l) is Some ==> is_valid_scheme_token(l),
{
    reveal_strlit("tag");
    reveal_strlit("teamspeak");
    reveal_strlit("teliaeid");
    reveal_strlit("telnet");
    reveal_strlit("tel");
    reveal_strlit("tftp");
    reveal_strlit("things");
    reveal_strlit("thismessage");
    reveal_strlit("tip");
    reveal_strlit("tn3270");
    reveal_strlit("turns");
    reveal_strlit("turn");
    reveal_strlit("tv");
    reveal_strlit("udp");
    reveal_strlit("unreal");
    reveal_strlit("urn");
    reveal_strlit("ut2004");
    reveal_strlit("vemmi");
    reveal_strlit("ventrilo");
    reveal_strlit("videotex");
    reveal_strlit("view-source");
    assert(is_valid_scheme_token("tag"@));
    assert(is_valid_scheme_token("teamspeak"@));
    assert(is_valid_scheme_token("teliaeid"@));
    assert(is_valid_scheme_token("telnet"@));
    assert(is_valid_scheme_token("tel"@));
    assert(is_valid_scheme_token("tftp"@));
    assert(is_valid_scheme_token("things"@));
    assert(is_valid_scheme_token("thismessage"@));
    assert(is_valid_scheme_token("tip"@));
    assert(is_valid_scheme_token("tn3270"@));
    assert(is_valid_scheme_token("turns"@));
    assert(is_valid_scheme_token("turn"@));
    assert(is_valid_scheme_token("tv"@));
    assert(is_valid_scheme_token("udp"@));
    assert(is_valid_scheme_token("unreal"@));
    assert(is_valid_scheme_token("urn"@));
    assert(is_valid_scheme_token("ut2004"@));
    assert(is_valid_scheme_token("vemmi"@));
    assert(is_valid_scheme_token("ventrilo"@));
    assert(is_valid_scheme_token("videotex"@));
    assert(is_valid_scheme_token("view-source"@));
}

/// Every key of `lookup_w_z` is a valid scheme token.
proof fn lemma_lookup_w_z_valid(l: Seq<char>)
    ensures
        lookup_w_z(l) is Some ==> is_valid_scheme_token(l),
{
    reveal_strlit("wais");
    reveal_strlit("webcal");
    reveal_strlit("wss");
    reveal_strlit("ws");
    reveal_strlit("wtai");
    reveal_strlit("wyciwyg");
    reveal_strlit("xcon-userid");
    reveal_strlit("xcon");
    reveal_strlit("xfire");
    reveal_strlit("xmlrpc.beeps");
    reveal_strlit("xmlrpc.beep");
    reveal_strlit("xmpp");
    reveal_strlit("xri");
    reveal_strlit("ymsgr");
    reveal_strlit("z39.50r");
    reveal_strlit("z39.50s");
    reveal_strlit("z39.50");
    assert(is_valid_scheme_token("wais"@));
    assert(is_valid_scheme_token("webcal"@));
    assert(is_valid_scheme_token("wss"@));
    assert(is_valid_scheme_token("ws"@));
    assert(is_valid_scheme_token("wtai"@));
    assert(is_valid_scheme_token("wyciwyg"@));
    assert(is_valid_scheme_token("xcon-userid"@));
    assert(is_valid_scheme_token("xcon"@));
    assert(is_valid_scheme_token("xfire"@));
    assert(is_valid_scheme_token("xmlrpc.beeps"@));
    assert(is_valid_scheme_token("xmlrpc.beep"@));
    assert(is_valid_scheme_token("xmpp"@));
    assert(is_valid_scheme_token("xri"@));
    assert(is_valid_scheme_token("ymsgr"@));
    assert(is_valid_scheme_token("z39.50r"@));
    assert(is_valid_scheme_token("z39.50s"@));
    assert(is_valid_scheme_token("z39.50"@));
}

/// Every key of the registry is a valid scheme token.
pub proof fn lemma_lookup_valid(l: Seq<char>)
    ensures
        lookup(l) is Some ==> is_valid_scheme_token(l),
{
    lemma_lookup_a_b_valid(l);
    lemma_lookup_c_e_valid(l);
    lemma_lookup_f_h_valid(l);
    lemma_lookup_i_k_valid(l);
    lemma_lookup_l_m_valid(l);
    lemma_lookup_n_q_valid(l);
    lemma_lookup_r_valid(l);
    lemma_lookup_s_valid(l);
    lemma_lookup_t_v_valid(l);
    lemma_lookup_w_z_valid(l);
}

/// Every key of `lookup_a_b` is already lowercase.
proof fn lemma_lookup_a_b_lowercase(l: Seq<char>)
    ensures
        lookup_a_b(l) is Some ==> ascii_lower(l) == l,
{
    reveal_strlit("aaa");
    reveal_strlit("aaas");
    reveal_strlit("about");
    reveal_strlit("acap");
    reveal_strlit("acct");
    reveal_strlit("acr");
    reveal_strlit("adiumxtra");
    reveal_strlit("afp");
    reveal_strlit("afs");
    reveal_strlit("aim");
    reveal_strlit("apt");
    reveal_strlit("attachment");
    reveal_strlit("aw");
    reveal_strlit("barion");
    reveal_strlit("beshare");
    reveal_strlit("bitcoin");
    reveal_strlit("bolo");
    assert(ascii_lower("aaa"@) =~= "aaa"@);
    assert(ascii_lower("aaas"@) =~= "aaas"@);
    assert(ascii_lower("about"@) =~= "about"@);
    assert(ascii_lower("acap"@) =~= "acap"@);
    assert(ascii_lower("acct"@) =~= "acct"@);
    assert(ascii_lower("acr"@) =~= "acr"@);
    assert(ascii_lower("adiumxtra"@) =~= "adiumxtra"@);
    assert(ascii_lower("afp"@) =~= "afp"@);
    assert(ascii_lower("afs"@) =~= "afs"@);
    assert(ascii_lower("aim"@) =~= "aim"@);
    assert(ascii_lower("apt"@) =~= "apt"@);
    assert(ascii_lower("attachment"@) =~= "attachment"@);
    assert(ascii_lower("aw"@) =~= "aw"@);
    assert(ascii_lower("barion"@) =~= "barion"@);
    assert(ascii_lower("beshare"@) =~= "beshare"@);
    assert(ascii_lower("bitcoin"@) =~= "bitcoin"@);
    assert(ascii_lower("bolo"@) =~= "bolo"@);
}

/// Every key of `lookup_c_e` is already lowercase.
proof fn lemma_lookup_c_e_lowercase(l: Seq<char>)
    ensures
        lookup_c_e(l) is Some ==> ascii_lower(l) == l,
{
    reveal_strlit("callto");
    reveal_strlit("cap");
    reveal_strlit("chrome");
    reveal_strlit("chrome-extension");
    reveal_strlit("cid");
    reveal_strlit("coap");
    reveal_strlit("coaps");
    reveal_strlit("com-eventbrite-attendee");
    reveal_strlit("content");
    reveal_strlit("crid");
    reveal_strlit("cvs");
    reveal_strlit("data");
    reveal_strlit("dav");
    reveal_strlit("dict");
    reveal_strlit("dlna-playcontainer");
    reveal_strlit("dlna-playsingle");
    reveal_strlit("dns");
    reveal_strlit("dtn");
    reveal_strlit("dvb");
    reveal_strlit("ed2k");
    assert(ascii_lower("callto"@) =~= "callto"@);
    assert(ascii_lower("cap"@) =~= "cap"@);
    assert(ascii_lower("chrome"@) =~= "chrome"@);
    assert(ascii_lower("chrome-extension"@) =~= "chrome-extension"@);
    assert(ascii_lower("cid"@) =~= "cid"@);
    assert(ascii_lower("coap"@) =~= "coap"@);
    assert(ascii_lower("coaps"@) =~= "coaps"@);
    assert(ascii_lower("com-eventbrite-attendee"@) =~= "com-eventbrite-attendee"@);
    assert(ascii_lower("content"@) =~= "content"@);
    assert(ascii_lower("crid"@) =~= "crid"@);
    assert(ascii_lower("cvs"@) =~= "cvs"@);
    assert(ascii_lower("data"@) =~= "data"@);
    assert(ascii_lower("dav"@) =~= "dav"@);
    assert(ascii_lower("dict"@) =~= "dict"@);
    assert(ascii_lower("dlna-playcontainer"@) =~= "dlna-playcontainer"@);
    assert(ascii_lower("dlna-playsingle"@) =~= "dlna-playsingle"@);
    assert(ascii_lower("dns"@) =~= "dns"@);
    assert(ascii_lower("dtn"@) =~= "dtn"@);
    assert(ascii_lower("dvb"@) =~= "dvb"@);
    assert(ascii_lower("ed2k"@) =~= "ed2k"@);
}

/// Every key of `lookup_f_h` is already lowercase.
proof fn lemma_lookup_f_h_lowercase(l: Seq<char>)
    ensures
        lookup_f_h(l) is Some ==> ascii_lower(l) == l,
{
    reveal_strlit("facetime");
    reveal_strlit("fax");
    reveal_strlit("feed");
    reveal_strlit("feedready");
    reveal_strlit("file");
    reveal_strlit("finger");
    reveal_strlit("fish");
    reveal_strlit("ftp");
    reveal_strlit("geo");
    reveal_strlit("gg");
    reveal_strlit("git");
    reveal_strlit("gizmoproject");
    reveal_strlit("go");
    reveal_strlit("gopher");
    reveal_strlit("gtalk");
    reveal_strlit("h323");
    reveal_strlit("ham");
    reveal_strlit("hcp");
    reveal_strlit("http");
    reveal_strlit("https");
    assert(ascii_lower("facetime"@) =~= "facetime"@);
    assert(ascii_lower("fax"@) =~= "fax"@);
    assert(ascii_lower("feed"@) =~= "feed"@);
    assert(ascii_lower("feedready"@) =~= "feedready"@);
    assert(ascii_lower("file"@) =~= "file"@);
    assert(ascii_lower("finger"@) =~= "finger"@);
    assert(ascii_lower("fish"@) =~= "fish"@);
    assert(ascii_lower("ftp"@) =~= "ftp"@);
    assert(ascii_lower("geo"@) =~= "geo"@);
    assert(ascii_lower("gg"@) =~= "gg"@);
    assert(ascii_lower("git"@) =~= "git"@);
    assert(ascii_lower("gizmoproject"@) =~= "gizmoproject"@);
    assert(ascii_lower("go"@) =~= "go"@);
    assert(ascii_lower("gopher"@) =~= "gopher"@);
    assert(ascii_lower("gtalk"@) =~= "gtalk"@);
    assert(ascii_lower("h323"@) =~= "h323"@);
    assert(ascii_lower("ham"@) =~= "ham"@);
    assert(ascii_lower("hcp"@) =~= "hcp"@);
    assert(ascii_lower("http"@) =~= "http"@);
    assert(ascii_lower("https"@) =~= "https"@);
}

/// Every key of `lookup_i_k` is already lowercase.
proof fn lemma_lookup_i_k_lowercase(l: Seq<char>)
    ensures
        lookup_i_k(l) is Some ==> ascii_lower(l) == l,
{
    reveal_strlit("iax");
    reveal_strlit("icap");
    reveal_strlit("icon");
    reveal_strlit("imap");
    reveal_strlit("im");
    reveal_strlit("info");
    reveal_strlit("ipn");
    reveal_strlit("ipp");
    reveal_strlit("ipps");
    reveal_strlit("irc6");
    reveal_strlit("irc");
    reveal_strlit("ircs");
    reveal_strlit("iris.beep");
    reveal_strlit("iris");
    reveal_strlit("iris.lwz");
    reveal_strlit("iris.xpc");
    reveal_strlit("iris.xpcs");
    reveal_strlit("itms");
    reveal_strlit("jabber");
    reveal_strlit("jar");
    reveal_strlit("jms");
    reveal_strlit("keyparc");
    assert(ascii_lower("iax"@) =~= "iax"@);
    assert(ascii_lower("icap"@) =~= "icap"@);
    assert(ascii_lower("icon"@) =~= "icon"@);
    assert(ascii_lower("imap"@) =~= "imap"@);
    assert(ascii_lower("im"@) =~= "im"@);
    assert(ascii_lower("info"@) =~= "info"@);
    assert(ascii_lower("ipn"@) =~= "ipn"@);
    assert(ascii_lower("ipp"@) =~= "ipp"@);
    assert(ascii_lower("ipps"@) =~= "ipps"@);
    assert(ascii_lower("irc6"@) =~= "irc6"@);
    assert(ascii_lower("irc"@) =~= "irc"@);
    assert(ascii_lower("ircs"@) =~= "ircs"@);
    assert(ascii_lower("iris.beep"@) =~= "iris.beep"@);
    assert(ascii_lower("iris"@) =~= "iris"@);
    assert(ascii_lower("iris.lwz"@) =~= "iris.lwz"@);
    assert(ascii_lower("iris.xpc"@) =~= "iris.xpc"@);
    assert(ascii_lower("iris.xpcs"@) =~= "iris.xpcs"@);
    assert(ascii_lower("itms"@) =~= "itms"@);
    assert(ascii_lower("jabber"@) =~= "jabber"@);
    assert(ascii_lower("jar"@) =~= "jar"@);
    assert(ascii_lower("jms"@) =~= "jms"@);
    assert(ascii_lower("keyparc"@) =~= "keyparc"@);
}

/// Every key of `lookup_l_m` is already lowercase.
proof fn lemma_lookup_l_m_lowercase(l: Seq<char>)
    ensures
        lookup_l_m(l) is Some ==> ascii_lower(l) == l,
{
    reveal_strlit("lastfm");
    reveal_strlit("ldap");
    reveal_strlit("ldaps");
    reveal_strlit("magnet");
    reveal_strlit("mailserver");
    reveal_strlit("mailto");
    reveal_strlit("maps");
    reveal_strlit("market");
    reveal_strlit("message");
    reveal_strlit("mid");
    reveal_strlit("mms");
    reveal_strlit("modem");
    reveal_strlit("ms-help");
    reveal_strlit("msnim");
    reveal_strlit("msrp");
    reveal_strlit("msrps");
    reveal_strlit("ms-settings-power");
    reveal_strlit("mtqp");
    reveal_strlit("mumble");
    reveal_strlit("mupdate");
    reveal_strlit("mvn");
    reveal_strlit("mysql");
    assert(ascii_lower("lastfm"@) =~= "lastfm"@);
    assert(ascii_lower("ldap"@) =~= "ldap"@);
    assert(ascii_lower("ldaps"@) =~= "ldaps"@);
    assert(ascii_lower("magnet"@) =~= "magnet"@);
    assert(ascii_lower("mailserver"@) =~= "mailserver"@);
    assert(ascii_lower("mailto"@) =~= "mailto"@);
    assert(ascii_lower("maps"@) =~= "maps"@);
    assert(ascii_lower("market"@) =~= "market"@);
    assert(ascii_lower("message"@) =~= "message"@);
    assert(ascii_lower("mid"@) =~= "mid"@);
    assert(ascii_lower("mms"@) =~= "mms"@);
    assert(ascii_lower("modem"@) =~= "modem"@);
    assert(ascii_lower("ms-help"@) =~= "ms-help"@);
    assert(ascii_lower("msnim"@) =~= "msnim"@);
    assert(ascii_lower("msrp"@) =~= "msrp"@);
    assert(ascii_lower("msrps"@) =~= "msrps"@);
    assert(ascii_lower("ms-settings-power"@) =~= "ms-settings-power"@);
    assert(ascii_lower("mtqp"@) =~= "mtqp"@);
    assert(ascii_lower("mumble"@) =~= "mumble"@);
    assert(ascii_lower("mupdate"@) =~= "mupdate"@);
    assert(ascii_lower("mvn"@) =~= "mvn"@);
    assert(ascii_lower("mysql"@) =~= "mysql"@);
}

/// Every key of `lookup_n_q` is already lowercase.
proof fn lemma_lookup_n_q_lowercase(l: Seq<char>)
    ensures
        lookup_n_q(l) is Some ==> ascii_lower(l) == l,
{
    reveal_strlit("news");
    reveal_strlit("nfs");
    reveal_strlit("nih");
    reveal_strlit("ni");
    reveal_strlit("nntp");
    reveal_strlit("notes");
    reveal_strlit("oid");
    reveal_strlit("opaquelocktoken");
    reveal_strlit("pack");
    reveal_strlit("palm");
    reveal_strlit("paparazzi");
    reveal_strlit("pkcs11");
    reveal_strlit("platform");
    reveal_strlit("pop");
    reveal_strlit("postgres");
    reveal_strlit("postgresql");
    reveal_strlit("pres");
    reveal_strlit("prospero");
    reveal_strlit("proxy");
    reveal_strlit("psyc");
    reveal_strlit("query");
    assert(ascii_lower("news"@) =~= "news"@);
    assert(ascii_lower("nfs"@) =~= "nfs"@);
    assert(ascii_lower("nih"@) =~= "nih"@);
    assert(ascii_lower("ni"@) =~= "ni"@);
    assert(ascii_lower("nntp"@) =~= "nntp"@);
    assert(ascii_lower("notes"@) =~= "notes"@);
    assert(ascii_lower("oid"@) =~= "oid"@);
    assert(ascii_lower("opaquelocktoken"@) =~= "opaquelocktoken"@);
    assert(ascii_lower("pack"@) =~= "pack"@);
    assert(ascii_lower("palm"@) =~= "palm"@);
    assert(ascii_lower("paparazzi"@) =~= "paparazzi"@);
    assert(ascii_lower("pkcs11"@) =~= "pkcs11"@);
    assert(ascii_lower("platform"@) =~= "platform"@);
    assert(ascii_lower("pop"@) =~= "pop"@);
    assert(ascii_lower("postgres"@) =~= "postgres"@);
    assert(ascii_lower("postgresql"@) =~= "postgresql"@);
    assert(ascii_lower("pres"@) =~= "pres"@);
    assert(ascii_lower("prospero"@) =~= "prospero"@);
    assert(ascii_lower("proxy"@) =~= "proxy"@);
    assert(ascii_lower("psyc"@) =~= "psyc"@);
    assert(ascii_lower("query"@) =~= "query"@);
}

/// Every key of `lookup_r` is already lowercase.
proof fn lemma_lookup_r_lowercase(l: Seq<char>)
    ensures
        lookup_r(l) is Some ==> ascii_lower(l) == l,
{
    reveal_strlit("reload");
    reveal_strlit("resource");
    reveal_strlit("res");
    reveal_strlit("rmi");
    reveal_strlit("rsync");
    reveal_strlit("rtmfp");
    reveal_strlit("rtmp");
    reveal_strlit("rtsp");
    reveal_strlit("rtsps");
    reveal_strlit("rtspu");
    assert(ascii_lower("reload"@) =~= "reload"@);
    assert(ascii_lower("resource"@) =~= "resource"@);
    assert(ascii_lower("res"@) =~= "res"@);
    assert(ascii_lower("rmi"@) =~= "rmi"@);
    assert(ascii_lower("rsync"@) =~= "rsync"@);
    assert(ascii_lower("rtmfp"@) =~= "rtmfp"@);
    assert(ascii_lower("rtmp"@) =~= "rtmp"@);
    assert(ascii_lower("rtsp"@) =~= "rtsp"@);
    assert(ascii_lower("rtsps"@) =~= "rtsps"@);
    assert(ascii_lower("rtspu"@) =~= "rtspu"@);
}

/// Every key of `lookup_s` is already lowercase.
proof fn lemma_lookup_s_lowercase(l: Seq<char>)
    ensures
        lookup_s(l) is Some ==> ascii_lower(l) == l,
{
    reveal_strlit("secondlife");
    reveal_strlit("service");
    reveal_strlit("session");
    reveal_strlit("sftp");
    reveal_strlit("sgn");
    reveal_strlit("shttp");
    reveal_strlit("sieve");
    reveal_strlit("sip");
    reveal_strlit("sips");
    reveal_strlit("skype");
    reveal_strlit("smb");
    reveal_strlit("sms");
    reveal_strlit("smtp");
    reveal_strlit("snews");
    reveal_strlit("snmp");
    reveal_strlit("soap.beep");
    reveal_strlit("soap.beeps");
    reveal_strlit("soldat");
    reveal_strlit("spotify");
    reveal_strlit("ssh");
    reveal_strlit("steam");
    reveal_strlit("stuns");
    reveal_strlit("stun");
    reveal_strlit("submit");
    reveal_strlit("svn");
    assert(ascii_lower("secondlife"@) =~= "secondlife"@);
    assert(ascii_lower("service"@) =~= "service"@);
    assert(ascii_lower("session"@) =~= "session"@);
    assert(ascii_lower("sftp"@) =~= "sftp"@);
    assert(ascii_lower("sgn"@) =~= "sgn"@);
    assert(ascii_lower("shttp"@) =~= "shttp"@);
    assert(ascii_lower("sieve"@) =~= "sieve"@);
    assert(ascii_lower("sip"@) =~= "sip"@);
    assert(ascii_lower("sips"@) =~= "sips"@);
    assert(ascii_lower("skype"@) =~= "skype"@);
    assert(ascii_lower("smb"@) =~= "smb"@);
    assert(ascii_lower("sms"@) =~= "sms"@);
    assert(ascii_lower("smtp"@) =~= "smtp"@);
    assert(ascii_lower("snews"@) =~= "snews"@);
    assert(ascii_lower("snmp"@) =~= "snmp"@);
    assert(ascii_lower("soap.beep"@) =~= "soap.beep"@);
    assert(ascii_lower("soap.beeps"@) =~= "soap.beeps"@);
    assert(ascii_lower("soldat"@) =~= "soldat"@);
    assert(ascii_lower("spotify"@) =~= "spotify"@);
    assert(ascii_lower("ssh"@) =~= "ssh"@);
    assert(ascii_lower("steam"@) =~= "steam"@);
    assert(ascii_lower("stuns"@) =~= "stuns"@);
    assert(ascii_lower("stun"@) =~= "stun"@);
    assert(ascii_lower("submit"@) =~= "submit"@);
    assert(ascii_lower("svn"@) =~= "svn"@);
}

/// Every key of `lookup_t_v` is already lowercase.
proof fn lemma_lookup_t_v_lowercase(l: Seq<char>)
    ensures
        lookup_t_v(l) is Some ==> ascii_lower(l) == l,
{
    reveal_strlit("tag");
    reveal_strlit("teamspeak");
    reveal_strlit("teliaeid");
    reveal_strlit("telnet");
    reveal_strlit("tel");
    reveal_strlit("tftp");
    reveal_strlit("things");
    reveal_strlit("thismessage");
    reveal_strlit("tip");
    reveal_strlit("tn3270");
    reveal_strlit("turns");
    reveal_strlit("turn");
    reveal_strlit("tv");
    reveal_strlit("udp");
    reveal_strlit("unreal");
    reveal_strlit("urn");
    reveal_strlit("ut2004");
    reveal_strlit("vemmi");
    reveal_strlit("ventrilo");
    reveal_strlit("videotex");
    reveal_strlit("view-source");
    assert(ascii_lower("tag"@) =~= "tag"@);
    assert(ascii_lower("teamspeak"@) =~= "teamspeak"@);
    assert(ascii_lower("teliaeid"@) =~= "teliaeid"@);
    assert(ascii_lower("telnet"@) =~= "telnet"@);
    assert(ascii_lower("tel"@) =~= "tel"@);
    assert(ascii_lower("tftp"@) =~= "tftp"@);
    assert(ascii_lower("things"@) =~= "things"@);
    assert(ascii_lower("thismessage"@) =~= "thismessage"@);
    assert(ascii_lower("tip"@) =~= "tip"@);
    assert(ascii_lower("tn3270"@) =~= "tn3270"@);
    assert(ascii_lower("turns"@) =~= "turns"@);
    assert(ascii_lower("turn"@) =~= "turn"@);
    assert(ascii_lower("tv"@) =~= "tv"@);
    assert(ascii_lower("udp"@) =~= "udp"@);
    assert(ascii_lower("unreal"@) =~= "unreal"@);
    assert(ascii_lower("urn"@) =~= "urn"@);
    assert(ascii_lower("ut2004"@) =~= "ut2004"@);
    assert(ascii_lower("vemmi"@) =~= "vemmi"@);
    assert(ascii_lower("ventrilo"@) =~= "ventrilo"@);
    assert(ascii_lower("videotex"@) =~= "videotex"@);
    assert(ascii_lower("view-source"@) =~= "view-source"@);
}

/// Every key of `lookup_w_z` is already lowercase.
proof fn lemma_lookup_w_z_lowercase(l: Seq<char>)
    ensures
        lookup_w_z(l) is Some ==> ascii_lower(l) == l,
{
    reveal_strlit("wais");
    reveal_strlit("webcal");
    reveal_strlit("wss");
    reveal_strlit("ws");
    reveal_strlit("wtai");
    reveal_strlit("wyciwyg");
    reveal_strlit("xcon-userid");
    reveal_strlit("xcon");
    reveal_strlit("xfire");
    reveal_strlit("xmlrpc.beeps");
    reveal_strlit("xmlrpc.beep");
    reveal_strlit("xmpp");
    reveal_strlit("xri");
    reveal_strlit("ymsgr");
    reveal_strlit("z39.50r");
    reveal_strlit("z39.50s");
    reveal_strlit("z39.50");
    assert(ascii_lower("wais"@) =~= "wais"@);
    assert(ascii_lower("webcal"@) =~= "webcal"@);
    assert(ascii_lower("wss"@) =~= "wss"@);
    assert(ascii_lower("ws"@) =~= "ws"@);
    assert(ascii_lower("wtai"@) =~= "wtai"@);
    assert(ascii_lower("wyciwyg"@) =~= "wyciwyg"@);
    assert(ascii_lower("xcon-userid"@) =~= "xcon-userid"@);
    assert(ascii_lower("xcon"@) =~= "xcon"@);
    assert(ascii_lower("xfire"@) =~= "xfire"@);
    assert(ascii_lower("xmlrpc.beeps"@) =~= "xmlrpc.beeps"@);
    assert(ascii_lower("xmlrpc.beep"@) =~= "xmlrpc.beep"@);
    assert(ascii_lower("xmpp"@) =~= "xmpp"@);
    assert(ascii_lower("xri"@) =~= "xri"@);
    assert(ascii_lower("ymsgr"@) =~= "ymsgr"@);
    assert(ascii_lower("z39.50r"@) =~= "z39.50r"@);
    assert(ascii_lower("z39.50s"@) =~= "z39.50s"@);
    assert(ascii_lower("z39.50"@) =~= "z39.50"@);
}

/// Every key of the registry is already lowercase.
pub proof fn lemma_lookup_keys_lowercase(l: Seq<char>)
    ensures
        lookup(l) is Some ==> ascii_lower(l) == l,
{
    lemma_lookup_a_b_lowercase(l);
    lemma_lookup_c_e_lowercase(l);
    lemma_lookup_f_h_lowercase(l);
    lemma_lookup_i_k_lowercase(l);
    lemma_lookup_l_m_lowercase(l);
    lemma_lookup_n_q_lowercase(l);
    lemma_lookup_r_lowercase(l);
    lemma_lookup_s_lowercase(l);
    lemma_lookup_t_v_lowercase(l);
    lemma_lookup_w_z_lowercase(l);
}

/// Completeness of the lookup: the canonical name of a known scheme is
/// a key of the registry, so looking it up yields a hit.
pub proof fn lemma_lookup_complete(s: Scheme, l: Seq<char>)
    requires
        !(s is Unknown),
        canonical_name_of(s) == l,
    ensures
        lookup(l) is Some,
{
}

/// Every entry of the registry resolves under its own canonical name:
/// the round trip of known schemes can start from any known scheme.
pub proof fn lemma_canonical_name_resolves(s: Scheme)
    requires
        !(s is Unknown),
    ensures
        resolve_spec(canonical_name_of(s)) is Some,
{
    let l = canonical_name_of(s);
    lemma_lookup_complete(s, l);
    lemma_lookup_keys_lowercase(l);
}

/// A hit in the registry is a known scheme whose canonical name is the
/// looked-up key.
pub proof fn lemma_lookup_name(l: Seq<char>)
    ensures
        lookup(l) matches Some(s) ==> !(s is Unknown) && canonical_name_of(s) == l,
{
    lemma_lookup_a_b_name(l);
    lemma_lookup_c_e_name(l);
    lemma_lookup_f_h_name(l);
    lemma_lookup_i_k_name(l);
    lemma_lookup_l_m_name(l);
    lemma_lookup_n_q_name(l);
    lemma_lookup_r_name(l);
    lemma_lookup_s_name(l);
    lemma_lookup_t_v_name(l);
    lemma_lookup_w_z_name(l);
}

/// A resolved scheme is a known scheme whose canonical name is the
/// ASCII-lowercase form of the resolved token.
pub proof fn lemma_resolve_known_name(name: Seq<char>)
    ensures
        resolve_spec(name) matches Some(s) ==> !(s is Unknown)
            && canonical_name_of(s) == ascii_lower(name),
{
    lemma_lookup_name(ascii_lower(name));
}

/// Resolution is case-insensitive: a token and its ASCII-lowercase form
/// resolve alike.
pub proof fn lemma_resolve_case_insensitive(name: Seq<char>)
    ensures
        resolve_spec(ascii_lower(name)) == resolve_spec(name),
{
    crate::text::lemma_ascii_lower_idempotent(name);
}

impl Scheme {
    /// Case-insensitive exact match of `name` against the table's
    /// lowercase names; `None` when the token is absent from the table.
    pub fn resolve(name: &str) -> (r: Option<Scheme>)
        ensures
            r == resolve_spec(name@),
    {
        let r = resolve_a_b(name);
        if r.is_some() {
            return r;
        }
        let r = resolve_c_e(name);
        if r.is_some() {
            return r;
        }
        let r = resolve_f_h(name);
        if r.is_some() {
            return r;
        }
        let r = resolve_i_k(name);
        if r.is_some() {
            return r;
        }
        let r = resolve_l_m(name);
        if r.is_some() {
            return r;
        }
        let r = resolve_n_q(name);
        if r.is_some() {
            return r;
        }
        let r = resolve_r(name);
        if r.is_some() {
            return r;
        }
        let r = resolve_s(name);
        if r.is_some() {
            return r;
        }
        let r = resolve_t_v(name);
        if r.is_some() {
            return r;
        }
        let r = resolve_w_z(name);
        if r.is_some() {
            return r;
        }
        None
    }

    /// The registry row for this scheme: canonical name (meaningful for
    /// known schemes only), description, reference, and status.
    fn table_row(&self) -> (r: (&str, &str, &str, SchemeStatus))
        ensures
            !(self is Unknown) ==> r.0@ == canonical_name_of(*self),
            r.1@ == description_of(*self),
            r.2@ == reference_of(*self),
            r.3 == status_of(*self),
    {
        match self {
            Scheme::Aaa => ("aaa", "Diameter Protocol", "[RFC6733]", SchemeStatus::Permanent),
            Scheme::Aaas => ("aaas", "Diameter Protocol with Secure Transport", "[RFC6733]", SchemeStatus::Permanent),
            Scheme::About => ("about", "about", "[RFC6694]", SchemeStatus::Permanent),
            Scheme::Acap => ("acap", "application configuration access protocol", "[RFC2244]", SchemeStatus::Permanent),
            Scheme::Acct => ("acct", "acct", "[RFC-ietf-appsawg-acct-uri-06]", SchemeStatus::Permanent),
            Scheme::Acr => ("acr", "acr", "[OMA-OMNA]", SchemeStatus::Provisional),
            Scheme::Adiumxtra => ("adiumxtra", "adiumxtra", "[Dave_Thaler]", SchemeStatus::Provisional),
            Scheme::Afp => ("afp", "afp", "[Dave_Thaler]", SchemeStatus::Provisional),
            Scheme::Afs => ("afs", "Andrew File System global file names", "[RFC1738]", SchemeStatus::Provisional),
            Scheme::Aim => ("aim", "aim", "[Dave_Thaler]", SchemeStatus::Provisional),
            Scheme::Apt => ("apt", "apt", "[Dave_Thaler]", SchemeStatus::Provisional),
            Scheme::Attachment => ("attachment", "attachment", "[Dave_Thaler]", SchemeStatus::Provisional),
            Scheme::Aw => ("aw", "aw", "[Dave_Thaler]", SchemeStatus::Provisional),
            Scheme::Barion => ("barion", "barion", "[Bíró_Tamás]", SchemeStatus::Provisional),
            Scheme::Beshare => ("beshare", "beshare", "[Dave_Thaler]", SchemeStatus::Provisional),
            Scheme::Bitcoin => ("bitcoin", "bitcoin", "[Dave_Thaler]", SchemeStatus::Provisional),
            Scheme::Bolo => ("bolo", "bolo", "[Dave_Thaler]", SchemeStatus::Provisional),
            Scheme::Callto => ("callto", "callto", "[Alexey_Melnikov]", SchemeStatus::Provisional),
            Scheme::Cap => ("cap", "Calendar Access Protocol", "[RFC4324]", SchemeStatus::Permanent),
            Scheme::Chrome => ("chrome", "chrome", "[Dave_Thaler]", SchemeStatus::Provisional),
            Scheme::ChromeExtension => ("chrome-extension", "chrome-extension", "[Dave_Thaler]", SchemeStatus::Provisional),
            Scheme::Cid => ("cid", "content identifier", "[RFC2392]", SchemeStatus::Permanent),
            Scheme::Coap => ("coap", "coap", "[RFC7252]", SchemeStatus::Permanent),
            Scheme::Coaps => ("coaps", "coaps", "[RFC7252]", SchemeStatus::Permanent),
            Scheme::ComEventbriteAttendee => ("com-eventbrite-attendee", "com-eventbrite-attendee", "[Bob_Van_Zant]", SchemeStatus::Provisional),
            Scheme::Content => ("content", "content", "[Dave_Thaler]", SchemeStatus::Provisional),
            Scheme::Crid => ("crid", "TV-Anytime Content Reference Identifier", "[RFC4078]", SchemeStatus::Permanent),
            Scheme::Cvs => ("cvs", "cvs", "[Dave_Thaler]", SchemeStatus::Provisional),
            Scheme::Data => ("data", "data", "[RFC2397]", SchemeStatus::Permanent),
            Scheme::Dav => ("dav", "dav", "[RFC4918]", SchemeStatus::Permanent),
            Scheme::Dict => ("dict", "dictionary service protocol", "[RFC2229]", SchemeStatus::Permanent),
            Scheme::DlnaPlaycontanier => ("dlna-playcontainer", "dlna-playcontainer", "[DLNA]", SchemeStatus::Provisional),
            Scheme::DlnaPlaysingle => ("dlna-playsingle", "dlna-playsingle", "[DLNA]", SchemeStatus::Provisional),
            Scheme::Dns => ("dns", "Domain Name System", "[RFC4501]", SchemeStatus::Permanent),
            Scheme::Dtn => ("dtn", "DTNRG research and development", "[RFC5050]", SchemeStatus::Provisional),
            Scheme::Dvb => ("dvb", "dvb", "[draft-mcroberts-uri-dvb]", SchemeStatus::Provisional),
            Scheme::Ed2k => ("ed2k", "ed2k", "[Dave_Thaler]", SchemeStatus::Provisional),
            Scheme::Facetime => ("facetime", "facetime", "[Dave_Thaler]", SchemeStatus::Provisional),
            Scheme::Fax => ("fax", "fax", "[RFC2806][RFC3966]", SchemeStatus::Historical),
            Scheme::Feed => ("feed", "feed", "[Dave_Thaler]", SchemeStatus::Provisional),
            Scheme::Feedready => ("feedready", "feedready", "[Mirko_Nosenzo]", SchemeStatus::Provisional),
            Scheme::File => ("file", "Host-specific file names", "[RFC1738]", SchemeStatus::Permanent),
            Scheme::Finger => ("finger", "finger", "[Dave_Thaler]", SchemeStatus::Provisional),
            Scheme::Fish => ("fish", "fish", "[Dave_Thaler]", SchemeStatus::Provisional),
            Scheme::Ftp => ("ftp", "File Transfer Protocol", "[RFC1738]", SchemeStatus::Permanent),
            Scheme::Geo => ("geo", "Geographic Locations", "[RFC5870]", SchemeStatus::Permanent),
            Scheme::Gg => ("gg", "gg", "[Dave_Thaler]", SchemeStatus::Provisional),
            Scheme::Git => ("git", "git", "[Dave_Thaler]", SchemeStatus::Provisional),
            Scheme::Gizmoproject => ("gizmoproject", "gizmoproject", "[Dave_Thaler]", SchemeStatus::Provisional),
            Scheme::Go => ("go", "go", "[RFC3368]", SchemeStatus::Permanent),
            Scheme::Gopher => ("gopher", "The Gopher Protocol", "[RFC4266]", SchemeStatus::Permanent),
            Scheme::Gtalk => ("gtalk", "gtalk", "[Dave_Thaler]", SchemeStatus::Provisional),
            Scheme::H323 => ("h323", "H.323", "[RFC3508]", SchemeStatus::Permanent),
            Scheme::Ham => ("ham", "ham", "[RFC7046]", SchemeStatus::Provisional),
            Scheme::Hcp => ("hcp", "hcp", "[Alexey_Melnikov]", SchemeStatus::Provisional),
            Scheme::Http => ("http", "Hypertext Transfer Protocol", "[RFC7230, Section 2.7.1]", SchemeStatus::Permanent),
            Scheme::Https => ("https", "Hypertext Transfer Protocol Secure", "[RFC7230, Section 2.7.2]", SchemeStatus::Permanent),
            Scheme::Iax => ("iax", "Inter-Asterisk eXchange Version 2", "[RFC5456]", SchemeStatus::Permanent),
            Scheme::Icap => ("icap", "Internet Content Adaptation Protocol", "[RFC3507]", SchemeStatus::Permanent),
            Scheme::Icon => ("icon", "icon", "[draft-lafayette-icon-uri-scheme]", SchemeStatus::Provisional),
            Scheme::Imap => ("imap", "internet message access protocol", "[RFC5092]", SchemeStatus::Permanent),
            Scheme::Im => ("im", "Instant Messaging", "[RFC3860]", SchemeStatus::Permanent),
            Scheme::Info => ("info", "Information Assets with Identifiers in Public Namespaces", "[RFC4452]", SchemeStatus::Permanent),
            Scheme::Ipn => ("ipn", "ipn", "[RFC6260]", SchemeStatus::Provisional),
            Scheme::Ipp => ("ipp", "Internet Printing Protocol", "[RFC3510]", SchemeStatus::Permanent),
            Scheme::Ipps => ("ipps", "Internet Printing Protocol over HTTPS", "[RFC-mcdonald-ipps-uri-scheme-18]", SchemeStatus::Permanent),
            Scheme::Irc6 => ("irc6", "irc6", "[Dave_Thaler]", SchemeStatus::Provisional),
            Scheme::Irc => ("irc", "irc", "[Dave_Thaler]", SchemeStatus::Provisional),
            Scheme::Ircs => ("ircs", "ircs", "[Dave_Thaler]", SchemeStatus::Provisional),
            Scheme::IrisBeep => ("iris.beep", "iris.beep", "[RFC3983]", SchemeStatus::Permanent),
            Scheme::Iris => ("iris", "Internet Registry Information Service", "[RFC3981]", SchemeStatus::Permanent),
            Scheme::IrisLwz => ("iris.lwz", "iris.lwz", "[RFC4993]", SchemeStatus::Permanent),
            Scheme::IrisXpc => ("iris.xpc", "iris.xpc", "[RFC4992]", SchemeStatus::Permanent),
            Scheme::IrisXpcs => ("iris.xpcs", "iris.xpcs", "[RFC4992]", SchemeStatus::Permanent),
            Scheme::Itms => ("itms", "itms", "[Dave_Thaler]", SchemeStatus::Provisional),
            Scheme::Jabber => ("jabber", "jabber", "[Peter_Saint-Andre]", SchemeStatus::Permanent),
            Scheme::Jar => ("jar", "jar", "[Dave_Thaler]", SchemeStatus::Provisional),
            Scheme::Jms => ("jms", "Java Message Service", "[RFC6167]", SchemeStatus::Provisional),
            Scheme::Keyparc => ("keyparc", "keyparc", "[Dave_Thaler]", SchemeStatus::Provisional),
            Scheme::Lastfm => ("lastfm", "lastfm", "[Dave_Thaler]", SchemeStatus::Provisional),
            Scheme::Ldap => ("ldap", "Lightweight Directory Access Protocol", "[RFC4516]", SchemeStatus::Permanent),
            Scheme::Ldaps => ("ldaps", "ldaps", "[Dave_Thaler]", SchemeStatus::Provisional),
            Scheme::Magnet => ("magnet", "magnet", "[Dave_Thaler]", SchemeStatus::Provisional),
            Scheme::Mailserver => ("mailserver", "Access to data available from mail servers", "[RFC6196]", SchemeStatus::Historical),
            Scheme::Mailto => ("mailto", "Electronic mail address", "[RFC6068]", SchemeStatus::Permanent),
            Scheme::Maps => ("maps", "maps", "[Dave_Thaler]", SchemeStatus::Provisional),
            Scheme::Market => ("market", "market", "[Dave_Thaler]", SchemeStatus::Provisional),
            Scheme::Message => ("message", "message", "[Dave_Thaler]", SchemeStatus::Provisional),
            Scheme::Mid => ("mid", "message identifier", "[RFC2392]", SchemeStatus::Permanent),
            Scheme::Mms => ("mms", "mms", "[Alexey_Melnikov]", SchemeStatus::Provisional),
            Scheme::Modem => ("modem", "modem", "[RFC2806][RFC3966]", SchemeStatus::Historical),
            Scheme::MsHelp => ("ms-help", "ms-help", "[Alexey_Melnikov]", SchemeStatus::Provisional),
            Scheme::Msnim => ("msnim", "msnim", "[Alexey_Melnikov]", SchemeStatus::Provisional),
            Scheme::Msrp => ("msrp", "Message Session Relay Protocol", "[RFC4975]", SchemeStatus::Permanent),
            Scheme::Msrps => ("msrps", "Message Session Relay Protocol Secure", "[RFC4975]", SchemeStatus::Permanent),
            Scheme::MsSettingsPower => ("ms-settings-power", "ms-settings-power", "[urischemeowners_at_microsoft.com]", SchemeStatus::Provisional),
            Scheme::Mtqp => ("mtqp", "Message Tracking Query Protocol", "[RFC3887]", SchemeStatus::Permanent),
            Scheme::Mumble => ("mumble", "mumble", "[Dave_Thaler]", SchemeStatus::Provisional),
            Scheme::Mupdate => ("mupdate", "Mailbox Update (MUPDATE) Protocol", "[RFC3656]", SchemeStatus::Permanent),
            Scheme::Mvn => ("mvn", "mvn", "[Dave_Thaler]", SchemeStatus::Provisional),
            Scheme::Mysql => ("mysql", "MySql Database Connection", "", SchemeStatus::Unregistered),
            Scheme::News => ("news", "USENET news", "[RFC5538]", SchemeStatus::Permanent),
            Scheme::Nfs => ("nfs", "network file system protocol", "[RFC2224]", SchemeStatus::Permanent),
            Scheme::Nih => ("nih", "nih", "[RFC6920]", SchemeStatus::Permanent),
            Scheme::Ni => ("ni", "ni", "[RFC6920]", SchemeStatus::Permanent),
            Scheme::Nntp => ("nntp", "USENET news using NNTP access", "[RFC5538]", SchemeStatus::Permanent),
            Scheme::Notes => ("notes", "notes", "[Dave_Thaler]", SchemeStatus::Provisional),
            Scheme::Oid => ("oid", "oid", "[draft-larmouth-oid-iri]", SchemeStatus::Provisional),
            Scheme::Opaquelocktoken => ("opaquelocktoken", "opaquelocktokent", "[RFC4918]", SchemeStatus::Permanent),
            Scheme::Pack => ("pack", "pack", "[draft-shur-pack-uri-scheme]", SchemeStatus::Historical),
            Scheme::Palm => ("palm", "palm", "[Dave_Thaler]", SchemeStatus::Provisional),
            Scheme::Paparazzi => ("paparazzi", "paparazzi", "[Dave_Thaler]", SchemeStatus::Provisional),
            Scheme::Pkcs11 => ("pkcs11", "pkcs11", "[draft-pechanec-pkcs11uri]", SchemeStatus::Provisional),
            Scheme::Platform => ("platform", "platform", "[Dave_Thaler]", SchemeStatus::Provisional),
            Scheme::Pop => ("pop", "Post Office Protocol v3", "[RFC2384]", SchemeStatus::Permanent),
            Scheme::Postgres => ("postgres", "Postgres Database Connection", "", SchemeStatus::Unregistered),
            Scheme::Postgresql => ("postgresql", "Postgres Database Connection", "", SchemeStatus::Unregistered),
            Scheme::Pres => ("pres", "Presence", "[RFC3859]", SchemeStatus::Permanent),
            Scheme::Prospero => ("prospero", "Prospero Directory Service", "[RFC4157]", SchemeStatus::Historical),
            Scheme::Proxy => ("proxy", "proxy", "[Dave_Thaler]", SchemeStatus::Provisional),
            Scheme::Psyc => ("psyc", "psyc", "[Dave_Thaler]", SchemeStatus::Provisional),
            Scheme::Query => ("query", "query", "[Dave_Thaler]", SchemeStatus::Provisional),
            Scheme::Reload => ("reload", "reload", "[RFC6940]", SchemeStatus::Permanent),
            Scheme::Resource => ("resource", "resource", "[Dave_Thaler]", SchemeStatus::Provisional),
            Scheme::Res => ("res", "res", "[Alexey_Melnikov]", SchemeStatus::Provisional),
            Scheme::Rmi => ("rmi", "rmi", "[Dave_Thaler]", SchemeStatus::Provisional),
            Scheme::Rsync => ("rsync", "rsync", "[RFC5781]", SchemeStatus::Provisional),
            Scheme::Rtmfp => ("rtmfp", "rtmfp", "[RFC7425]", SchemeStatus::Provisional),
            Scheme::Rtmp => ("rtmp", "rtmp", "[Dave_Thaler]", SchemeStatus::Provisional),
            Scheme::Rtsp => ("rtsp", "Real-time Streaming Protocol (RTSP)", "[RFC2326][RFC-ietf-mmusic-rfc2326bis-40]", SchemeStatus::Permanent),
            Scheme::Rtsps => ("rtsps", "Real-time Streaming Protocol (RTSP) over TLS", "[RFC2326][RFC-ietf-mmusic-rfc2326bis-40]", SchemeStatus::Permanent),
            Scheme::Rtspu => ("rtspu", "Real-time Streaming Protocol (RTSP) over unreliable datagram transport", "[RFC2326]", SchemeStatus::Permanent),
            Scheme::Secondlife => ("secondlife", "query", "[Dave_Thaler]", SchemeStatus::Provisional),
            Scheme::Service => ("service", "service location", "[RFC2609]", SchemeStatus::Permanent),
            Scheme::Session => ("session", "session", "[RFC6787]", SchemeStatus::Permanent),
            Scheme::Sftp => ("sftp", "query", "[Dave_Thaler]", SchemeStatus::Provisional),
            Scheme::Sgn => ("sgn", "sgn", "[Dave_Thaler]", SchemeStatus::Provisional),
            Scheme::Shttp => ("shttp", "Secure Hypertext Transfer Protocol", "[RFC2660]", SchemeStatus::Permanent),
            Scheme::Sieve => ("sieve", "ManageSieve Protocol", "[RFC5804]", SchemeStatus::Permanent),
            Scheme::Sip => ("sip", "session initiation protocol", "[RFC3261]", SchemeStatus::Permanent),
            Scheme::Sips => ("sips", "secure session initiation protocol", "[RFC3261]", SchemeStatus::Permanent),
            Scheme::Skype => ("skype", "skype", "[Alexey_Melnikov]", SchemeStatus::Provisional),
            Scheme::Smb => ("smb", "smb", "[Dave_Thaler]", SchemeStatus::Provisional),
            Scheme::Sms => ("sms", "Short Message Service", "[RFC5724]", SchemeStatus::Permanent),
            Scheme::Smtp => ("smtp", "smtp", "[draft-melnikov-smime-msa-to-mda]", SchemeStatus::Provisional),
            Scheme::Snews => ("snews", "NNTP over SSL/TLS", "[RFC5538]", SchemeStatus::Historical),
            Scheme::Snmp => ("snmp", "Simple Network Management Protocol", "[RFC4088]", SchemeStatus::Permanent),
            Scheme::SoapBeep => ("soap.beep", "soap.beep", "[RFC4227]", SchemeStatus::Permanent),
            Scheme::SoapBeeps => ("soap.beeps", "soap.beeps", "[RFC4227]", SchemeStatus::Permanent),
            Scheme::Soldat => ("soldat", "soldat", "[Dave_Thaler]", SchemeStatus::Provisional),
            Scheme::Spotify => ("spotify", "spotify", "[Dave_Thaler]", SchemeStatus::Provisional),
            Scheme::Ssh => ("ssh", "ssh", "[Dave_Thaler]", SchemeStatus::Provisional),
            Scheme::Steam => ("steam", "steam", "[Dave_Thaler]", SchemeStatus::Provisional),
            Scheme::Stuns => ("stuns", "stuns", "[RFC7064]", SchemeStatus::Permanent),
            Scheme::Stun => ("stun", "stun", "[RFC7064]", SchemeStatus::Permanent),
            Scheme::Submit => ("submit", "submit", "[draft-melnikov-smime-msa-to-mda]", SchemeStatus::Provisional),
            Scheme::Svn => ("svn", "svn", "[Dave_Thaler]", SchemeStatus::Provisional),
            Scheme::Tag => ("tag", "tag", "[RFC4151]", SchemeStatus::Permanent),
            Scheme::Teamspeak => ("teamspeak", "teamspeak", "[Dave_Thaler]", SchemeStatus::Provisional),
            Scheme::Teliaeid => ("teliaeid", "teliaeid", "[Peter_Lewandowski]", SchemeStatus::Provisional),
            Scheme::Telnet => ("telnet", "Reference to interactive sessions", "[RFC4248]", SchemeStatus::Permanent),
            Scheme::Tel => ("tel", "telephone", "[RFC3966]", SchemeStatus::Permanent),
            Scheme::Tftp => ("tftp", "Trivial File Transfer Protocol", "[RFC3617]", SchemeStatus::Permanent),
            Scheme::Things => ("things", "things", "[Dave_Thaler]", SchemeStatus::Provisional),
            Scheme::ThisMessage => ("thismessage", "multipart/related relative reference resolution", "[RFC2557]", SchemeStatus::Permanent),
            Scheme::Tip => ("tip", "Transaction Internet Protocol", "[RFC2371]", SchemeStatus::Permanent),
            Scheme::Tn3270 => ("tn3270", "Interactive 3270 emulation sessions", "[RFC6270]", SchemeStatus::Permanent),
            Scheme::Turns => ("turns", "turns", "[RFC7065]", SchemeStatus::Permanent),
            Scheme::Turn => ("turn", "turn", "[RFC7065]", SchemeStatus::Permanent),
            Scheme::Tv => ("tv", "TV Broadcasts", "[RFC2838]", SchemeStatus::Permanent),
            Scheme::Udp => ("udp", "udp", "[Dave_Thaler]", SchemeStatus::Provisional),
            Scheme::Unreal => ("unreal", "unreal", "[Dave_Thaler]", SchemeStatus::Provisional),
            Scheme::Urn => ("urn", "Uniform Resource Names", "[RFC2141][IANA registry urn-namespaces]", SchemeStatus::Permanent),
            Scheme::Ut2004 => ("ut2004", "ut2004", "[Dave_Thaler]", SchemeStatus::Provisional),
            Scheme::Vemmi => ("vemmi", "versatile multimedia interface", "[RFC2122]", SchemeStatus::Permanent),
            Scheme::Ventrilo => ("ventrilo", "ventrilo", "[Dave_Thaler]", SchemeStatus::Provisional),
            Scheme::Videotex => ("videotex", "videotex", "[draft-mavrakis-videotex-url-spec][RFC2122][RFC3986]", SchemeStatus::Historical),
            Scheme::ViewSource => ("view-source", "view-source", "[Mykyta_Yevstifeyev]", SchemeStatus::Provisional),
            Scheme::Wais => ("wais", "Wide Area Information Servers", "[RFC4156]", SchemeStatus::Historical),
            Scheme::Webcal => ("webcal", "webcal", "[Dave_Thaler]", SchemeStatus::Provisional),
            Scheme::Wss => ("wss", "Encrypted WebSocket connections", "[RFC6455]", SchemeStatus::Permanent),
            Scheme::Ws => ("ws", "WebSocket connections", "[RFC6455]", SchemeStatus::Permanent),
            Scheme::Wtai => ("wtai", "wtai", "[Dave_Thaler]", SchemeStatus::Provisional),
            Scheme::Wyciwyg => ("wyciwyg", "wyciwyg", "[Dave_Thaler]", SchemeStatus::Provisional),
            Scheme::XconUserid => ("xcon-userid", "xcon-userid", "[RFC6501]", SchemeStatus::Permanent),
            Scheme::Xcon => ("xcon", "xcon", "[RFC6501]", SchemeStatus::Permanent),
            Scheme::Xfire => ("xfire", "xfire", "[Dave_Thaler]", SchemeStatus::Provisional),
            Scheme::XmlrpcBeeps => ("xmlrpc.beeps", "xmlrpc.beeps", "[RFC3529]", SchemeStatus::Permanent),
            Scheme::XmlrpcBeep => ("xmlrpc.beep", "xmlrpc.beep", "[RFC3529]", SchemeStatus::Permanent),
            Scheme::Xmpp => ("xmpp", "Extensible Messaging and Presence Protocol", "[RFC5122]", SchemeStatus::Permanent),
            Scheme::Xri => ("xri", "xri", "[Dave_Thaler]", SchemeStatus::Provisional),
            Scheme::Ymsgr => ("ymsgr", "ymsgr", "[Dave_Thaler]", SchemeStatus::Provisional),
            Scheme::Z3950r => ("z39.50r", "Z39.50 Retrieval", "[RFC2056]", SchemeStatus::Permanent),
            Scheme::Z3950s => ("z39.50s", "Z39.50 Session", "[RFC2056]", SchemeStatus::Permanent),
            Scheme::Z3950 => ("z39.50", "Z39.50 information access", "[RFC1738][RFC2056]", SchemeStatus::Historical),
            Scheme::Unknown(_) => ("", "", "", SchemeStatus::Unregistered),
        }
    }

    /// The canonical lowercase string form of the scheme; for `Unknown`
    /// the wrapped token, lowercased for display.
    pub fn canonical_name(&self) -> (r: String)
        ensures
            r@ == canonical_name_of(*self),
    {
        match self {
            Scheme::Unknown(n) => lower_string(n.as_str()),
            _ => self.table_row().0.to_owned(),
        }
    }

    /// The IANA registration status of the scheme; `Unregistered` for
    /// `Unknown`.
    pub fn iana_status(&self) -> (r: SchemeStatus)
        ensures
            r == status_of(*self),
    {
        self.table_row().3
    }

    /// The human-readable description of the scheme; empty for `Unknown`.
    pub fn description(&self) -> (r: &str)
        ensures
            r@ == description_of(*self),
    {
        self.table_row().1
    }

    /// The normative reference of the scheme; empty for `Unknown`.
    pub fn iana_reference(&self) -> (r: &str)
        ensures
            r@ == reference_of(*self),
    {
        self.table_row().2
    }
}

} // verus!
