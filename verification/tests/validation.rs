use user_dtos::dtos::{
    ForgotPasswordRequestDto, LoginUserDto, NameUpdateDto, RegisterUserDto, RequestQueryDto,
    ResetPasswordRequestDto, RoleUpdateDto, UserPasswordUpdateDto, VerifyEmailQueryDto,
};
use user_dtos::errors::UnsupportedRoleError;
use user_dtos::models::UserRole;

fn register(name: &str, email: &str, password: &str, confirm: &str) -> RegisterUserDto {
    RegisterUserDto {
        name: name.to_string(),
        email: email.to_string(),
        password: password.to_string(),
        password_confirm: confirm.to_string(),
    }
}

#[test]
fn register_password_mismatch_is_the_only_error() {
    let d = register("Ann", "ann@example.com", "longpass1", "longpass2");
    let errs = d.validate().unwrap_err();
    assert_eq!(errs.len(), 1);
    assert_eq!(errs[0].field, "passwordConfirm");
    assert_eq!(errs[0].message, "Passwords do not match");
}

#[test]
fn register_matching_passwords_pass() {
    let d = register("Ann", "ann@example.com", "longpass1", "longpass1");
    assert!(d.validate().is_ok());
}

#[test]
fn register_collects_every_violation() {
    let d = register("", "", "short", "");
    let errs = d.validate().unwrap_err();
    let fields: Vec<&str> = errs.iter().map(|e| e.field.as_str()).collect();
    // the empty email violates both the required rule and the email grammar,
    // and the empty confirmation both its required rule and the cross-field
    // equality: rules are independent, no failure suppresses another
    assert_eq!(
        fields,
        vec!["name", "email", "email", "password", "passwordConfirm", "passwordConfirm"]
    );
    assert_eq!(errs[0].message, "Name is Required");
    assert_eq!(errs[1].message, "Email is required");
    assert_eq!(errs[2].message, "Email is invalid");
    assert_eq!(errs[3].message, "Password should be at least 8 characters");
    assert_eq!(errs[4].message, "Confirm password is required");
    assert_eq!(errs[5].message, "Passwords do not match");
}

#[test]
fn register_rejects_bad_email_format() {
    let d = register("Ann", "not-an-email", "longpass1", "longpass1");
    let errs = d.validate().unwrap_err();
    assert_eq!(errs.len(), 1);
    assert_eq!(errs[0].field, "email");
    assert_eq!(errs[0].message, "Email is invalid");
}

#[test]
fn login_rules() {
    let ok = LoginUserDto {
        email: "ann@example.com".to_string(),
        password: "12345678".to_string(),
    };
    assert!(ok.validate().is_ok());

    let short = LoginUserDto {
        email: "ann@example.com".to_string(),
        password: "1234567".to_string(),
    };
    let errs = short.validate().unwrap_err();
    assert_eq!(errs.len(), 1);
    assert_eq!(errs[0].field, "password");
    assert_eq!(errs[0].message, "Password must be at least 8 characters");
}

#[test]
fn query_limit_bounds() {
    for bad in [0usize, 51, 1000] {
        let d = RequestQueryDto {
            page: Some(1),
            limit: Some(bad),
        };
        let errs = d.validate().unwrap_err();
        assert_eq!(errs.len(), 1);
        assert_eq!(errs[0].field, "limit");
        assert_eq!(errs[0].message, "limit must be between 1 and 50");
    }
    for good in [1usize, 25, 50] {
        let d = RequestQueryDto {
            page: Some(1),
            limit: Some(good),
        };
        assert!(d.validate().is_ok());
    }
}

#[test]
fn query_page_below_one_fails() {
    let d = RequestQueryDto {
        page: Some(0),
        limit: Some(10),
    };
    let errs = d.validate().unwrap_err();
    assert_eq!(errs.len(), 1);
    assert_eq!(errs[0].field, "page");
    assert_eq!(errs[0].message, "page must be 1 or greater");
}

#[test]
fn query_absent_fields_pass() {
    let d = RequestQueryDto {
        page: None,
        limit: None,
    };
    assert!(d.validate().is_ok());
}

#[test]
fn role_update_allows_admin_and_user_only() {
    assert!(RoleUpdateDto {
        role: UserRole::Admin
    }
    .validate()
    .is_ok());
    assert!(RoleUpdateDto {
        role: UserRole::User
    }
    .validate()
    .is_ok());
    let err = RoleUpdateDto {
        role: UserRole::Moderator,
    }
    .validate()
    .unwrap_err();
    assert_eq!(err, UnsupportedRoleError);
}

#[test]
fn name_update_requires_name() {
    let empty = NameUpdateDto {
        name: String::new(),
    };
    let errs = empty.validate().unwrap_err();
    assert_eq!(errs.len(), 1);
    assert_eq!(errs[0].field, "name");
    assert_eq!(errs[0].message, "Name is required");
    assert!(NameUpdateDto {
        name: "Ann".to_string()
    }
    .validate()
    .is_ok());
}

#[test]
fn password_update_rules() {
    let ok = UserPasswordUpdateDto {
        new_password: "newpass123".to_string(),
        new_password_confirm: "newpass123".to_string(),
        old_password: "oldpass123".to_string(),
    };
    assert!(ok.validate().is_ok());

    let bad = UserPasswordUpdateDto {
        new_password: "newpass123".to_string(),
        new_password_confirm: "newpass124".to_string(),
        old_password: String::new(),
    };
    let errs = bad.validate().unwrap_err();
    let pairs: Vec<(&str, &str)> = errs
        .iter()
        .map(|e| (e.field.as_str(), e.message.as_str()))
        .collect();
    assert_eq!(
        pairs,
        vec![
            ("newPasswordConfirm", "new passwords do not match"),
            ("oldPassword", "Old password is required"),
        ]
    );
}

#[test]
fn verify_email_requires_token() {
    let empty = VerifyEmailQueryDto {
        token: String::new(),
    };
    let errs = empty.validate().unwrap_err();
    assert_eq!(errs.len(), 1);
    assert_eq!(errs[0].field, "token");
    assert!(VerifyEmailQueryDto {
        token: "tok".to_string()
    }
    .validate()
    .is_ok());
}

#[test]
fn forgot_password_requires_email() {
    let empty = ForgotPasswordRequestDto {
        email: String::new(),
    };
    let errs = empty.validate().unwrap_err();
    assert_eq!(errs.len(), 1);
    assert_eq!(errs[0].field, "email");
    assert_eq!(errs[0].message, "Email is required");
}

#[test]
fn reset_password_rules() {
    let ok = ResetPasswordRequestDto {
        token: "tok".to_string(),
        new_password: "newpass123".to_string(),
        new_password_confirm: "newpass123".to_string(),
    };
    assert!(ok.validate().is_ok());

    let bad = ResetPasswordRequestDto {
        token: String::new(),
        new_password: "short".to_string(),
        new_password_confirm: "different1".to_string(),
    };
    let errs = bad.validate().unwrap_err();
    let pairs: Vec<(&str, &str)> = errs
        .iter()
        .map(|e| (e.field.as_str(), e.message.as_str()))
        .collect();
    assert_eq!(
        pairs,
        vec![
            ("token", "Token is Required"),
            ("newPassword", "New password must be at least 8 characters"),
            ("newPasswordConfirm", "New passwords do not match"),
        ]
    );
}

#[test]
fn revalidation_yields_the_same_result() {
    let d = register("Ann", "ann@example.com", "longpass1", "longpass1");
    assert_eq!(d.validate(), d.validate());
    assert!(d.validate().is_ok());

    let bad = register("Ann", "ann@example.com", "longpass1", "longpass2");
    assert_eq!(bad.validate(), bad.validate());
}
