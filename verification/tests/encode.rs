use axum_xml::{
    body_collected, decoded, encode_response, from_request, DecodeStep, Header, Headers, Xml,
};
use serde::de::{Deserializer, IgnoredAny, MapAccess, Visitor};
use serde::ser::SerializeStruct;

#[derive(Debug, PartialEq, Clone)]
struct CreateUser {
    email: String,
    password: String,
}

impl serde::Serialize for CreateUser {
    fn serialize<S: serde::Serializer>(&self, s: S) -> Result<S::Ok, S::Error> {
        let mut st = s.serialize_struct("CreateUser", 2)?;
        st.serialize_field("email", &self.email)?;
        st.serialize_field("password", &self.password)?;
        st.end()
    }
}

struct CreateUserVisitor;

impl<'de> Visitor<'de> for CreateUserVisitor {
    type Value = CreateUser;

    fn expecting(&self, f: &mut std::fmt::Formatter) -> std::fmt::Result {
        f.write_str("struct CreateUser")
    }

    fn visit_map<A: MapAccess<'de>>(self, mut map: A) -> Result<CreateUser, A::Error> {
        let mut email: Option<String> = None;
        let mut password: Option<String> = None;
        while let Some(key) = map.next_key::<String>()? {
            match key.as_str() {
                "email" => email = Some(map.next_value()?),
                "password" => password = Some(map.next_value()?),
                _ => {
                    let _: IgnoredAny = map.next_value()?;
                }
            }
        }
        Ok(CreateUser {
            email: email.ok_or_else(|| serde::de::Error::missing_field("email"))?,
            password: password.ok_or_else(|| serde::de::Error::missing_field("password"))?,
        })
    }
}

impl<'de> serde::Deserialize<'de> for CreateUser {
    fn deserialize<D: Deserializer<'de>>(d: D) -> Result<Self, D::Error> {
        d.deserialize_struct("CreateUser", &["email", "password"], CreateUserVisitor)
    }
}

struct Failing;

impl serde::Serialize for Failing {
    fn serialize<S: serde::Serializer>(&self, _s: S) -> Result<S::Ok, S::Error> {
        Err(serde::ser::Error::custom("refused by the encoder"))
    }
}

fn encode<T: serde::Serialize>(value: &T) -> Result<String, String> {
    quick_xml::se::to_string(value).map_err(|e| e.to_string())
}

#[test]
fn encode_success_is_xml_response() {
    let user = CreateUser { email: "a@b.com".to_string(), password: "x".to_string() };
    let resp = encode_response(encode(&user));
    assert_eq!(resp.status, 200);
    assert_eq!(resp.content_type, "application/xml");
    assert_eq!(
        resp.body,
        "<CreateUser><email>a@b.com</email><password>x</password></CreateUser>"
    );
}

#[test]
fn encode_failure_is_plain_text_500() {
    let outcome = encode(&Failing);
    assert!(outcome.is_err());
    let resp = encode_response(outcome);
    assert_eq!(resp.status, 500);
    assert_eq!(resp.content_type, "text/plain; charset=utf-8");
    assert!(!resp.body.is_empty());
    assert!(resp.body.contains("refused by the encoder"));
}

#[test]
fn round_trip_preserves_value() {
    let user = CreateUser { email: "a@b.com".to_string(), password: "x".to_string() };
    let xml = encode(&user).expect("serializes without error");

    let headers = Headers {
        entries: vec![Header {
            name: "content-type".to_string(),
            value: b"application/xml".to_vec(),
        }],
    };
    let envelope = match from_request(&headers) {
        DecodeStep::NeedBody => {
            let bytes = body_collected(Ok(xml.into_bytes())).expect("collector succeeded");
            let text = String::from_utf8(bytes).expect("xml is utf-8");
            let outcome =
                quick_xml::de::from_str::<CreateUser>(&text).map_err(|e| e.to_string());
            decoded(outcome).expect("decode succeeded")
        }
        DecodeStep::Rejected(r) => panic!("unexpected rejection: {:?}", r),
    };
    assert_eq!(envelope.0, user);
}

#[test]
fn envelope_is_transparent() {
    let mut envelope = Xml::new(CreateUser {
        email: "a@b.com".to_string(),
        password: "x".to_string(),
    });
    assert_eq!(envelope.get().email, "a@b.com");
    envelope.set(CreateUser { email: "c@d.org".to_string(), password: "y".to_string() });
    assert_eq!(envelope.0.email, "c@d.org");
    let inner = envelope.into_inner();
    assert_eq!(inner.password, "y");

    let from_bare: Xml<u32> = Xml::from(9);
    assert_eq!(from_bare.0, 9);
}
