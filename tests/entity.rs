use user_auth::entity::{
    verify_user_auth_request, verify_user_create_request, UserAuthRequest, UserCreateRequest,
};

struct TestCase<T, A> {
    input: A,
    output: T,
}

#[test]
fn verify_user_auth_request_test() {
    let test_cases = vec![
        TestCase {
            input: UserAuthRequest {
                username: String::from("James"),
                password: String::from("james123"),
            },
            output: Ok(()),
        },
        TestCase {
            input: UserAuthRequest {
                username: String::from(""),
                password: String::from("james123"),
            },
            output: Err("invalid username".to_string()),
        },
        TestCase {
            input: UserAuthRequest {
                username: String::from("James"),
                password: String::from(""),
            },
            output: Err("invalid password".to_string()),
        },
    ];

    for test_case in test_cases {
        let res = verify_user_auth_request(test_case.input);
        assert_eq!(res, test_case.output)
    }
}

#[test]
fn verify_user_create_request_test() {
    let test_cases = vec![
        TestCase {
            input: UserCreateRequest {
                username: String::from("JamesHolland"),
                password: String::from("james123"),
                firstname: String::from("James"),
                lastname: String::from("Holland"),
            },
            output: Ok(()),
        },
        TestCase {
            input: UserCreateRequest {
                username: String::from(""),
                password: String::from("james123"),
                firstname: String::from("James"),
                lastname: String::from("Holland"),
            },
            output: Err("invalid username".to_string()),
        },
        TestCase {
            input: UserCreateRequest {
                username: String::from("JamesHolland"),
                password: String::from(""),
                firstname: String::from("James"),
                lastname: String::from("Holland"),
            },
            output: Err("invalid password".to_string()),
        },
        TestCase {
            input: UserCreateRequest {
                username: String::from("JamesHolland"),
                password: String::from("james123"),
                firstname: String::from(""),
                lastname: String::from("Holland"),
            },
            output: Err("firstname is empty".to_string()),
        },
        TestCase {
            input: UserCreateRequest {
                username: String::from("JamesHolland"),
                password: String::from("james123"),
                firstname: String::from("James"),
                lastname: String::from(""),
            },
            output: Err("lastname is empty".to_string()),
        },
    ];

    for test_case in test_cases {
        let res = verify_user_create_request(test_case.input);
        assert_eq!(res, test_case.output)
    }
}

#[test]
fn create_request_with_four_char_username_is_rejected() {
    let req = UserCreateRequest {
        username: String::from("abcd"),
        password: String::from("abcde"),
        firstname: String::from("John"),
        lastname: String::from("Doe"),
    };
    assert_eq!(verify_user_create_request(req), Err("invalid username".to_string()));
}

#[test]
fn create_request_with_empty_firstname_is_rejected() {
    let req = UserCreateRequest {
        username: String::from("abcde"),
        password: String::from("abcde"),
        firstname: String::from(""),
        lastname: String::from("Doe"),
    };
    assert_eq!(verify_user_create_request(req), Err("firstname is empty".to_string()));
}

#[test]
fn five_chars_is_enough_for_login() {
    let req = UserAuthRequest { username: String::from("abcde"), password: String::from("12345") };
    assert_eq!(verify_user_auth_request(req), Ok(()));
    let req = UserAuthRequest { username: String::from("abcde"), password: String::from("1234") };
    assert_eq!(verify_user_auth_request(req), Err("invalid password".to_string()));
}

#[test]
fn credential_length_counts_bytes() {
    let req = UserAuthRequest { username: String::from("ééé"), password: String::from("ééé") };
    assert_eq!(verify_user_auth_request(req), Ok(()));
    let req = UserAuthRequest { username: String::from("éé"), password: String::from("secret1") };
    assert_eq!(verify_user_auth_request(req), Err("invalid username".to_string()));
    let req = UserCreateRequest {
        username: String::from("ééé"),
        password: String::from("éé"),
        firstname: String::from("É"),
        lastname: String::from("Ö"),
    };
    assert_eq!(verify_user_create_request(req), Err("invalid password".to_string()));
}
