//! Generation of the two bootstrap shell scripts: the reusable start
//! script (mount and bind setup, first-boot detection, chroot entry)
//! and the one-shot internal setup script (distribution-specific
//! package bootstrap and user wiring) whose presence marks an
//! unconfigured tree.

use vstd::prelude::*;
use vstd::string::*;
use crate::distro::FamilyKind;

verus! {

/// The shell used inside the tree: `/bin/sh` for the musl-based
/// Alpine family, `/bin/bash` otherwise.
pub open spec fn spec_shell(family: FamilyKind) -> Seq<char> {
    if family == FamilyKind::Alpine {
        "/bin/sh"@
    } else {
        "/bin/bash"@
    }
}

/// Picks the in-tree shell for a family.
pub fn shell_command(family: FamilyKind) -> (r: &'static str)
    ensures
        r@ == spec_shell(family),
{
    if family == FamilyKind::Alpine {
        "/bin/sh"
    } else {
        "/bin/bash"
    }
}

/// The start script: remounts the data partition, creates and
/// bind-mounts the pseudo-filesystems, relaxes the in-tree `su` PAM
/// policy, runs the one-shot setup script on first boot (then strips
/// security attributes again and deletes the sentinel), and finally
/// enters the chroot as the requested user.
pub open spec fn spec_start_script(
    install_path: Seq<char>,
    exe_path: Seq<char>,
    family: FamilyKind,
) -> Seq<char> {
    let shell = spec_shell(family);
    r##"#!/bin/sh
DISTROPATH=""##@ + install_path + r##""
TARGET_USER="${1:-root}"

mnt() {
    if [ -x "$(command -v busybox)" ]; then
        busybox mount "$@"
    else
        /system/bin/mount "$@"
    fi
}

echo "[*] Mounting system folders..."
mnt -o remount,dev,suid /data

[ ! -d "$DISTROPATH/dev" ] && mkdir -p "$DISTROPATH/dev"
[ ! -d "$DISTROPATH/dev/pts" ] && mkdir -p "$DISTROPATH/dev/pts"
[ ! -d "$DISTROPATH/dev/shm" ] && mkdir -p "$DISTROPATH/dev/shm"
[ ! -d "$DISTROPATH/proc" ] && mkdir -p "$DISTROPATH/proc"
[ ! -d "$DISTROPATH/sys" ] && mkdir -p "$DISTROPATH/sys"
[ ! -d "$DISTROPATH/sdcard" ] && mkdir -p "$DISTROPATH/sdcard"

mnt --bind /dev "$DISTROPATH/dev"
mnt --bind /sys "$DISTROPATH/sys"
mnt --bind /proc "$DISTROPATH/proc"
mnt -t devpts devpts "$DISTROPATH/dev/pts"
mnt -t tmpfs -o size=256M tmpfs "$DISTROPATH/dev/shm"
mnt --bind /sdcard "$DISTROPATH/sdcard"

if [ -d "$DISTROPATH/etc/pam.d" ]; then
    echo "#%PAM-1"##@ + "."@ + r##"0
auth       sufficient   pam_rootok.so
auth       required     pam_permit.so
account    required     pam_permit.so
session    required     pam_env.so
session    optional     pam_xauth.so
session    required     pam_permit.so" > "$DISTROPATH/etc/pam.d/su"

    cp "$DISTROPATH/etc/pam.d/su" "$DISTROPATH/etc/pam.d/su-l"
fi

if [ -f "$DISTROPATH/root/finalize_setup.sh" ]; then
    echo "[!] First time setup detected. Configuring users & groups..."
    chmod +x "$DISTROPATH/root/finalize_setup.sh"

    if [ -x "$(command -v busybox)" ]; then
        busybox chroot "$DISTROPATH" "##@ + shell + r##" /root/finalize_setup.sh
    else
        /system/bin/chroot "$DISTROPATH" "##@ + shell + r##" /root/finalize_setup.sh
    fi

    echo "[*] Performing Host-Side Security Cleanup (Fedora Fix)..."
    ""##@ + exe_path + r##"" clean-xattr "$DISTROPATH"

    rm "$DISTROPATH/root/finalize_setup.sh"
fi

echo "[*] Entering Chroot as $TARGET_USER..."
echo "Type 'exit' to leave."

if [ -f "$DISTROPATH/usr/bin/su" ]; then
    SU_CMD="/usr/bin/su"
else
    SU_CMD="/bin/su"
fi

if [ -x "$(command -v busybox)" ]; then
    busybox chroot "$DISTROPATH" $SU_CMD - "$TARGET_USER"
else
    /system/bin/chroot "$DISTROPATH" $SU_CMD - "$TARGET_USER"
fi
"##@
}

/// Builds the start script text for an install path, the path of this
/// installer binary (re-invoked for the host-side attribute cleanup),
/// and the distribution family.
pub fn start_script_content(install_path: &str, exe_path: &str, family: FamilyKind) -> (r: String)
    ensures
        r@ == spec_start_script(install_path@, exe_path@, family),
{
    let shell = shell_command(family);
    let mut r = String::from_str(
        r##"#!/bin/sh
DISTROPATH=""##,
    );
    r.append(install_path);
    r.append(
        r##""
TARGET_USER="${1:-root}"

mnt() {
    if [ -x "$(command -v busybox)" ]; then
        busybox mount "$@"
    else
        /system/bin/mount "$@"
    fi
}

echo "[*] Mounting system folders..."
mnt -o remount,dev,suid /data

[ ! -d "$DISTROPATH/dev" ] && mkdir -p "$DISTROPATH/dev"
[ ! -d "$DISTROPATH/dev/pts" ] && mkdir -p "$DISTROPATH/dev/pts"
[ ! -d "$DISTROPATH/dev/shm" ] && mkdir -p "$DISTROPATH/dev/shm"
[ ! -d "$DISTROPATH/proc" ] && mkdir -p "$DISTROPATH/proc"
[ ! -d "$DISTROPATH/sys" ] && mkdir -p "$DISTROPATH/sys"
[ ! -d "$DISTROPATH/sdcard" ] && mkdir -p "$DISTROPATH/sdcard"

mnt --bind /dev "$DISTROPATH/dev"
mnt --bind /sys "$DISTROPATH/sys"
mnt --bind /proc "$DISTROPATH/proc"
mnt -t devpts devpts "$DISTROPATH/dev/pts"
mnt -t tmpfs -o size=256M tmpfs "$DISTROPATH/dev/shm"
mnt --bind /sdcard "$DISTROPATH/sdcard"

if [ -d "$DISTROPATH/etc/pam.d" ]; then
    echo "#%PAM-1"##,
    );
    r.append(".");
    r.append(
        r##"0
auth       sufficient   pam_rootok.so
auth       required     pam_permit.so
account    required     pam_permit.so
session    required     pam_env.so
session    optional     pam_xauth.so
session    required     pam_permit.so" > "$DISTROPATH/etc/pam.d/su"

    cp "$DISTROPATH/etc/pam.d/su" "$DISTROPATH/etc/pam.d/su-l"
fi

if [ -f "$DISTROPATH/root/finalize_setup.sh" ]; then
    echo "[!] First time setup detected. Configuring users & groups..."
    chmod +x "$DISTROPATH/root/finalize_setup.sh"

    if [ -x "$(command -v busybox)" ]; then
        busybox chroot "$DISTROPATH" "##,
    );
    r.append(shell);
    r.append(
        r##" /root/finalize_setup.sh
    else
        /system/bin/chroot "$DISTROPATH" "##,
    );
    r.append(shell);
    r.append(
        r##" /root/finalize_setup.sh
    fi

    echo "[*] Performing Host-Side Security Cleanup (Fedora Fix)..."
    ""##,
    );
    r.append(exe_path);
    r.append(
        r##"" clean-xattr "$DISTROPATH"

    rm "$DISTROPATH/root/finalize_setup.sh"
fi

echo "[*] Entering Chroot as $TARGET_USER..."
echo "Type 'exit' to leave."

if [ -f "$DISTROPATH/usr/bin/su" ]; then
    SU_CMD="/usr/bin/su"
else
    SU_CMD="/bin/su"
fi

if [ -x "$(command -v busybox)" ]; then
    busybox chroot "$DISTROPATH" $SU_CMD - "$TARGET_USER"
else
    /system/bin/chroot "$DISTROPATH" $SU_CMD - "$TARGET_USER"
fi
"##,
    );
    r
}

/// The package-manager bootstrap block for a family: one of five
/// mutually exclusive branches; the Debian branch also covers Ubuntu
/// and Kali.
pub open spec fn spec_package_block(family: FamilyKind) -> Seq<char> {
    match family {
        FamilyKind::Alpine => r##"
echo ">>> (Alpine) Updating Repository..."
echo "http://dl-cdn.alpinelinux.org/alpine/edge/main" > /etc/apk/repositories
echo "http://dl-cdn.alpinelinux.org/alpine/edge/community" >> /etc/apk/repositories
apk update
echo ">>> (Alpine) Installing Base Tools..."
apk add bash shadow sudo nano net-tools git
"##@,
        FamilyKind::Arch => r##"
echo ">>> (Arch Linux) Configuring Pacman..."
sed -i 's/^DownloadUser/#DownloadUser/' /etc/pacman.conf
sed -i 's/^#DisableSandbox/DisableSandbox/' /etc/pacman.conf
sed -i 's/^CheckSpace/#CheckSpace/' /etc/pacman.conf
userdel -r alarm 2>/dev/null || true
echo ">>> (Arch Linux) Init Keyring..."
pacman-key --init
pacman-key --populate archlinuxarm
echo ">>> (Arch Linux) Updating..."
pacman -Sy --noconfirm
echo ">>> (Arch Linux) Installing Tools..."
pacman -S --noconfirm sudo nano net-tools git base-devel
"##@,
        FamilyKind::Void => r##"
echo ">>> (Void Linux) Updating..."
xbps-install -S
echo ">>> (Void Linux) Installing Tools..."
xbps-install -y -S sudo nano net-tools git bash shadow ca-certificates
"##@,
        FamilyKind::Fedora => r##"
echo ">>> (Fedora) Updating Repository..."
dnf update -y
echo ">>> (Fedora) Installing Tools..."
dnf install -y nano net-tools sudo git passwd shadow-utils util-linux attr findutils
"##@,
        FamilyKind::DebianFamily => r##"
echo ">>> (Debian/Ubuntu/Kali) Updating..."
apt update -y
echo ">>> (Debian/Ubuntu/Kali) Installing Tools..."
apt install -y nano net-tools sudo git
"##@,
    }
}

/// Picks the package bootstrap block for a family.
pub fn package_block(family: FamilyKind) -> (r: &'static str)
    ensures
        r@ == spec_package_block(family),
{
    match family {
        FamilyKind::Alpine => r##"
echo ">>> (Alpine) Updating Repository..."
echo "http://dl-cdn.alpinelinux.org/alpine/edge/main" > /etc/apk/repositories
echo "http://dl-cdn.alpinelinux.org/alpine/edge/community" >> /etc/apk/repositories
apk update
echo ">>> (Alpine) Installing Base Tools..."
apk add bash shadow sudo nano net-tools git
"##,
        FamilyKind::Arch => r##"
echo ">>> (Arch Linux) Configuring Pacman..."
sed -i 's/^DownloadUser/#DownloadUser/' /etc/pacman.conf
sed -i 's/^#DisableSandbox/DisableSandbox/' /etc/pacman.conf
sed -i 's/^CheckSpace/#CheckSpace/' /etc/pacman.conf
userdel -r alarm 2>/dev/null || true
echo ">>> (Arch Linux) Init Keyring..."
pacman-key --init
pacman-key --populate archlinuxarm
echo ">>> (Arch Linux) Updating..."
pacman -Sy --noconfirm
echo ">>> (Arch Linux) Installing Tools..."
pacman -S --noconfirm sudo nano net-tools git base-devel
"##,
        FamilyKind::Void => r##"
echo ">>> (Void Linux) Updating..."
xbps-install -S
echo ">>> (Void Linux) Installing Tools..."
xbps-install -y -S sudo nano net-tools git bash shadow ca-certificates
"##,
        FamilyKind::Fedora => r##"
echo ">>> (Fedora) Updating Repository..."
dnf update -y
echo ">>> (Fedora) Installing Tools..."
dnf install -y nano net-tools sudo git passwd shadow-utils util-linux attr findutils
"##,
        FamilyKind::DebianFamily => r##"
echo ">>> (Debian/Ubuntu/Kali) Updating..."
apt update -y
echo ">>> (Debian/Ubuntu/Kali) Installing Tools..."
apt install -y nano net-tools sudo git
"##,
    }
}

/// The one-shot internal setup script: package bootstrap by family,
/// wheel sudo access, the three fixed-GID host groups, and creation
/// of the requested login with its plaintext credential.
pub open spec fn spec_setup_script(
    family: FamilyKind,
    username: Seq<char>,
    password: Seq<char>,
) -> Seq<char> {
    r##"#!/bin/sh
export PATH=/usr/local/sbin:/usr/local/bin:/usr/sbin:/usr/bin:/sbin:/bin
unset TMPDIR TMP TEMP
export LC_ALL=C
mkdir -p /tmp
chmod 1777 /tmp

"##@ + spec_package_block(family) + r##"

echo ">>> Configuring Sudo Access..."
if [ -f /etc/sudoers ]; then
    echo '%wheel ALL=(ALL:ALL) ALL' >> /etc/sudoers
fi

echo ">>> Configuring Network Groups..."
sed -i '/:3003:/d' /etc/group
sed -i '/:3004:/d' /etc/group
sed -i '/:1003:/d' /etc/group
sed -i '/^aid_inet:/d' /etc/group
sed -i '/^aid_net_raw:/d' /etc/group
sed -i '/^aid_graphics:/d' /etc/group

groupadd -g 3003 aid_inet
groupadd -g 3004 aid_net_raw
groupadd -g 1003 aid_graphics

if [ -f /etc/debian_version ]; then
    usermod -g 3003 -G 3003,3004 -a _apt 2>/dev/null || true
fi
usermod -a -G aid_inet root 2>/dev/null || usermod -G 3003 -a root

echo ">>> Creating User '"##@ + username + r##"'..."
groupadd storage 2>/dev/null || true
groupadd wheel 2>/dev/null || true

useradd -m -g users -G wheel,audio,video,storage,aid_inet -s /bin/bash "##@ + username + r##"
echo ""##@ + username + ":"@ + password + r##"" | chpasswd

echo ">>> Done!"
"##@
}

/// Builds the internal setup script text.
pub fn setup_script_content(family: FamilyKind, username: &str, password: &str) -> (r: String)
    ensures
        r@ == spec_setup_script(family, username@, password@),
{
    let mut r = String::from_str(
        r##"#!/bin/sh
export PATH=/usr/local/sbin:/usr/local/bin:/usr/sbin:/usr/bin:/sbin:/bin
unset TMPDIR TMP TEMP
export LC_ALL=C
mkdir -p /tmp
chmod 1777 /tmp

"##,
    );
    r.append(package_block(family));
    r.append(
        r##"

echo ">>> Configuring Sudo Access..."
if [ -f /etc/sudoers ]; then
    echo '%wheel ALL=(ALL:ALL) ALL' >> /etc/sudoers
fi

echo ">>> Configuring Network Groups..."
sed -i '/:3003:/d' /etc/group
sed -i '/:3004:/d' /etc/group
sed -i '/:1003:/d' /etc/group
sed -i '/^aid_inet:/d' /etc/group
sed -i '/^aid_net_raw:/d' /etc/group
sed -i '/^aid_graphics:/d' /etc/group

groupadd -g 3003 aid_inet
groupadd -g 3004 aid_net_raw
groupadd -g 1003 aid_graphics

if [ -f /etc/debian_version ]; then
    usermod -g 3003 -G 3003,3004 -a _apt 2>/dev/null || true
fi
usermod -a -G aid_inet root 2>/dev/null || usermod -G 3003 -a root

echo ">>> Creating User '"##,
    );
    r.append(username);
    r.append(
        r##"'..."
groupadd storage 2>/dev/null || true
groupadd wheel 2>/dev/null || true

useradd -m -g users -G wheel,audio,video,storage,aid_inet -s /bin/bash "##,
    );
    r.append(username);
    r.append(
        r##"
echo ""##,
    );
    r.append(username);
    r.append(":");
    r.append(password);
    r.append(
        r##"" | chpasswd

echo ">>> Done!"
"##,
    );
    r
}

/// The sentinel path of the setup script inside the tree, relative to
/// the tree root.
pub fn finalize_script_rel_path() -> (r: &'static str)
    ensures
        r@ == "root/finalize_setup.sh"@,
{
    "root/finalize_setup.sh"
}

} // verus!
